use vstd::prelude::*;

verus! {

/// A failure reported by an external collaborator (the raw connect
/// mechanism or the handshake engine), held losslessly as plain values:
/// a numeric code and a human-readable detail.
#[derive(Clone, PartialEq, Eq, Debug)]
pub struct RawError {
    pub code: u32,
    pub detail: String,
}

/// The unified error a failed establishment attempt resolves to.
/// Every variant preserves the originating failure as an inspectable cause;
/// nothing is retried or swallowed at this layer.
#[derive(Clone, PartialEq, Eq, Debug)]
pub enum ConnectionError {
    /// The raw byte-stream connect step failed.
    ConnectFailure(RawError),
    /// The secure-channel negotiation failed.
    HandshakeFailure(RawError),
    /// The peer's verified identity did not match the expected peer name.
    IdentityMismatch(RawError),
}

impl ConnectionError {
    /// The preserved originating failure, whatever the kind.
    pub open spec fn cause_spec(self) -> RawError {
        match self {
            ConnectionError::ConnectFailure(e) => e,
            ConnectionError::HandshakeFailure(e) => e,
            ConnectionError::IdentityMismatch(e) => e,
        }
    }

    /// The preserved originating failure, whatever the kind.
    pub fn cause(&self) -> (e: &RawError)
        ensures
            *e == self.cause_spec(),
    {
        match self {
            ConnectionError::ConnectFailure(e) => e,
            ConnectionError::HandshakeFailure(e) => e,
            ConnectionError::IdentityMismatch(e) => e,
        }
    }
}

} // verus!
