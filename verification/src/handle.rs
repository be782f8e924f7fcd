use vstd::prelude::*;

verus! {

/// Error returned when enqueuing through a handle whose paired attempt
/// has failed or been cancelled: the transport will never exist.
#[derive(Clone, Copy, PartialEq, Eq, Structural, Debug)]
pub enum EnqueueError {
    TransportUnavailable,
}

/// A non-blocking enqueue endpoint for messages destined for the eventual
/// transport. It is valid immediately when the paired attempt is assembled,
/// before that attempt resolves, and has a lifetime independent of it.
#[derive(Debug)]
pub struct OutboundHandle {
    pub queued: Vec<Vec<u8>>,
    pub available: bool,
}

impl OutboundHandle {
    /// Enqueue one outbound message. Never blocks. Succeeds, appending the
    /// message, exactly while the handle has not reached its terminal state;
    /// afterwards it reports the transport unavailable and changes nothing.
    pub fn enqueue(&mut self, message: Vec<u8>) -> (r: Result<(), EnqueueError>)
        ensures
            old(self).available ==> r is Ok,
            old(self).available ==> final(self).queued@ == old(self).queued@.push(message),
            old(self).available ==> final(self).available,
            !old(self).available ==> r == Result::<(), EnqueueError>::Err(
                EnqueueError::TransportUnavailable,
            ),
            !old(self).available ==> *final(self) == *old(self),
    {
        if self.available {
            self.queued.push(message);
            Ok(())
        } else {
            Err(EnqueueError::TransportUnavailable)
        }
    }

    /// Record that the paired attempt has resolved to a failure or been
    /// dropped before resolution: the handle reaches its terminal state,
    /// from which every later enqueue reports failure. Queued messages
    /// are kept for inspection.
    pub fn mark_unavailable(&mut self)
        ensures
            !final(self).available,
            final(self).queued@ == old(self).queued@,
    {
        self.available = false;
    }

    /// Hand out everything queued so far, in enqueue order, leaving the
    /// queue empty. Availability is untouched.
    pub fn drain_queued(&mut self) -> (msgs: Vec<Vec<u8>>)
        ensures
            msgs@ == old(self).queued@,
            final(self).queued@.len() == 0,
            final(self).available == old(self).available,
    {
        let mut msgs: Vec<Vec<u8>> = Vec::new();
        core::mem::swap(&mut msgs, &mut self.queued);
        msgs
    }
}

} // verus!
