use vstd::prelude::*;

use crate::addr::SocketAddress;

verus! {

/// A trust anchor: a certificate the caller explicitly trusts for verifying
/// the remote peer's identity, held as its DER encoding.
#[derive(Clone, Debug)]
pub struct TrustAnchor {
    pub der: Vec<u8>,
}

/// Caller-supplied trust anchors and an optional local bind address.
/// Pure data: mutated only by the builder's configuration operations,
/// before an attempt is assembled.
#[derive(Debug)]
pub struct TrustConfiguration {
    pub anchors: Vec<TrustAnchor>,
    pub bind_addr: Option<SocketAddress>,
}

impl TrustConfiguration {
    /// An empty configuration: no extra trust anchors, no bind address.
    pub fn new() -> (c: Self)
        ensures
            c.anchors@.len() == 0,
            c.bind_addr is None,
    {
        TrustConfiguration { anchors: Vec::new(), bind_addr: None }
    }

    /// Appends a trust anchor; nothing else changes.
    pub fn add_ca(&mut self, ca: TrustAnchor)
        ensures
            final(self).anchors@ == old(self).anchors@.push(ca),
            final(self).bind_addr == old(self).bind_addr,
    {
        self.anchors.push(ca);
    }

    /// Records the local address to originate the connection from;
    /// nothing else changes.
    pub fn bind_addr(&mut self, bind_addr: SocketAddress)
        ensures
            final(self).bind_addr == Some(bind_addr),
            final(self).anchors@ == old(self).anchors@,
    {
        self.bind_addr = Some(bind_addr);
    }
}

} // verus!
