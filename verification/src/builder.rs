use vstd::prelude::*;

use crate::addr::SocketAddress;
use crate::establish::{initial_establishment, EstablishPhase, EstablishmentAttempt,
    EstablishmentState};
use crate::handle::OutboundHandle;
use crate::trust::{TrustAnchor, TrustConfiguration};

verus! {

/// Builder for the secured client transport: owns the trust configuration
/// and the connection capability, and assembles establishment attempts.
/// It performs no I/O itself.
pub struct TlsClientStreamBuilder<P> {
    pub provider: P,
    pub config: TrustConfiguration,
}

impl<P> TlsClientStreamBuilder<P> {
    /// Creates a builder bound to `provider`, the capability object that
    /// knows how to open outbound byte-stream connections. No I/O is
    /// performed; the configuration starts empty.
    pub fn new(provider: P) -> (b: Self)
        ensures
            b.provider == provider,
            b.config.anchors@.len() == 0,
            b.config.bind_addr is None,
    {
        TlsClientStreamBuilder { provider, config: TrustConfiguration::new() }
    }

    /// Add a custom trusted peer certificate or certificate authority.
    ///
    /// If this is the 'client' then the 'server' must have it associated as
    /// its identity, or have had the identity signed by this certificate.
    pub fn add_ca(&mut self, ca: TrustAnchor)
        ensures
            final(self).config.anchors@ == old(self).config.anchors@.push(ca),
            final(self).config.bind_addr == old(self).config.bind_addr,
            final(self).provider == old(self).provider,
    {
        self.config.add_ca(ca);
    }

    /// Sets the address to connect from.
    pub fn bind_addr(&mut self, bind_addr: SocketAddress)
        ensures
            final(self).config.bind_addr == Some(bind_addr),
            final(self).config.anchors@ == old(self).config.anchors@,
            final(self).provider == old(self).provider,
    {
        self.config.bind_addr(bind_addr);
    }

    /// Assembles a new establishment attempt to `name_server`, whose peer
    /// certificate must verify against `dns_name`, paired with a fresh
    /// outbound handle that is usable at once. Synchronous: the attempt
    /// performs no work until a driver runs the carried capability and
    /// reports the outcomes; the builder's configuration is snapshotted
    /// into the attempt, so later configuration cannot affect it.
    pub fn build(self, name_server: SocketAddress, dns_name: String) -> (r: (
        EstablishmentAttempt<P>,
        OutboundHandle,
    ))
        ensures
            r.0.connect == self.provider,
            r.0.state == initial_establishment(self.config, name_server, dns_name),
            r.1.available,
            r.1.queued@.len() == 0,
    {
        let attempt = EstablishmentAttempt {
            connect: self.provider,
            state: EstablishmentState {
                config: self.config,
                remote_addr: name_server,
                peer_name: dns_name,
                phase: EstablishPhase::Connecting,
            },
        };
        let handle = OutboundHandle { queued: Vec::new(), available: true };
        (attempt, handle)
    }

    /// Identical to `build`, but the caller supplies the raw connect
    /// operation directly (enabling custom transports, test doubles, or
    /// pre-established sockets); the bound provider is set aside.
    /// `name_server` is retained for the transport's addressing metadata,
    /// not for connecting.
    pub fn build_with_future<F>(self, future: F, name_server: SocketAddress, dns_name: String)
        -> (r: (EstablishmentAttempt<F>, OutboundHandle))
        ensures
            r.0.connect == future,
            r.0.state == initial_establishment(self.config, name_server, dns_name),
            r.1.available,
            r.1.queued@.len() == 0,
    {
        let attempt = EstablishmentAttempt {
            connect: future,
            state: EstablishmentState {
                config: self.config,
                remote_addr: name_server,
                peer_name: dns_name,
                phase: EstablishPhase::Connecting,
            },
        };
        let handle = OutboundHandle { queued: Vec::new(), available: true };
        (attempt, handle)
    }
}

} // verus!
