use vstd::prelude::*;

use crate::addr::SocketAddress;
use crate::error::{ConnectionError, RawError};
use crate::trust::TrustConfiguration;

verus! {

/// Where an establishment attempt stands. The attempt is one-shot: the
/// phases advance from `Connecting` through `Handshaking` to `Done` and
/// never move again.
#[derive(Clone, Copy, PartialEq, Eq, Structural, Debug)]
pub enum EstablishPhase {
    /// Waiting on the raw byte-stream connect operation.
    Connecting,
    /// Connect done; waiting on the secure-channel handshake.
    Handshaking,
    /// Resolved, to success or failure; no further transition applies.
    Done,
}

/// The protocol-level client stream produced when an attempt resolves
/// successfully: the raw secured stream together with the remote-address
/// metadata the protocol layer needs.
pub struct Transport<S> {
    pub stream: S,
    pub remote_addr: SocketAddress,
}

impl<S> Transport<S> {
    /// Wrap a raw secured stream as a protocol client stream, tagging it
    /// with the remote address the connection was made to.
    pub fn from_stream(stream: S, remote_addr: SocketAddress) -> (t: Self)
        ensures
            t.stream == stream,
            t.remote_addr == remote_addr,
    {
        Transport { stream, remote_addr }
    }
}

/// The verified core of an in-flight establishment attempt: the snapshot of
/// the trust configuration, the addressing and identity inputs fixed at
/// build time, and the one-shot phase. The raw connect operation and the
/// handshake engine are external collaborators; a driver runs them and
/// reports each outcome through the `on_*` transitions.
pub struct EstablishmentState {
    pub config: TrustConfiguration,
    pub remote_addr: SocketAddress,
    pub peer_name: String,
    pub phase: EstablishPhase,
}

/// The state a build call hands out: fresh, fully determined by the
/// configuration and the call's own arguments.
pub open spec fn initial_establishment(
    config: TrustConfiguration,
    remote_addr: SocketAddress,
    peer_name: String,
) -> EstablishmentState {
    EstablishmentState { config, remote_addr, peer_name, phase: EstablishPhase::Connecting }
}

/// The successful-connect transition: only the phase advances.
pub open spec fn after_connect_ok(s: EstablishmentState) -> EstablishmentState {
    EstablishmentState { phase: EstablishPhase::Handshaking, ..s }
}

/// The state after any transition that resolves the attempt: terminal,
/// everything else untouched.
pub open spec fn after_resolution(s: EstablishmentState) -> EstablishmentState {
    EstablishmentState { phase: EstablishPhase::Done, ..s }
}

/// The failure transformation for the connect step: lossless, tagged as a
/// connect failure.
pub open spec fn connect_failure_resolution(e: RawError) -> ConnectionError {
    ConnectionError::ConnectFailure(e)
}

/// The failure transformation for the handshake step: an identity mismatch
/// is told apart from every other negotiation failure; the cause is kept
/// either way.
pub open spec fn handshake_failure_resolution(
    identity_mismatch: bool,
    e: RawError,
) -> ConnectionError {
    if identity_mismatch {
        ConnectionError::IdentityMismatch(e)
    } else {
        ConnectionError::HandshakeFailure(e)
    }
}

impl EstablishmentState {
    /// The driver reports that the raw connect operation succeeded: the
    /// attempt moves to the handshake. Nothing else changes.
    pub fn on_connect_ok(&mut self)
        requires
            old(self).phase == EstablishPhase::Connecting,
        ensures
            *final(self) == after_connect_ok(*old(self)),
    {
        self.phase = EstablishPhase::Handshaking;
    }

    /// The driver reports that the raw connect step failed with `e`: the
    /// attempt resolves to a connect failure whose preserved cause is
    /// exactly `e`, and the phase is terminal.
    pub fn on_connect_err(&mut self, e: RawError) -> (r: ConnectionError)
        requires
            old(self).phase == EstablishPhase::Connecting,
        ensures
            *final(self) == after_resolution(*old(self)),
            r == connect_failure_resolution(e),
    {
        self.phase = EstablishPhase::Done;
        ConnectionError::ConnectFailure(e)
    }

    /// The driver hands over the raw secured stream after a successful
    /// handshake: the success transformation wraps it as the protocol
    /// client stream, carrying exactly the remote address the attempt was
    /// built for, and the phase is terminal.
    pub fn on_handshake_ok<S>(&mut self, stream: S) -> (t: Transport<S>)
        requires
            old(self).phase == EstablishPhase::Handshaking,
        ensures
            *final(self) == after_resolution(*old(self)),
            t.stream == stream,
            t.remote_addr == old(self).remote_addr,
    {
        self.phase = EstablishPhase::Done;
        Transport { stream, remote_addr: self.remote_addr }
    }

    /// The driver reports that the handshake failed; `identity_mismatch`
    /// says whether the peer's verified identity did not match the expected
    /// peer name. The attempt resolves to the matching failure kind — never
    /// to a success — with the cause preserved, and the phase is terminal.
    pub fn on_handshake_err(&mut self, identity_mismatch: bool, e: RawError) -> (r: ConnectionError)
        requires
            old(self).phase == EstablishPhase::Handshaking,
        ensures
            *final(self) == after_resolution(*old(self)),
            r == handshake_failure_resolution(identity_mismatch, e),
    {
        self.phase = EstablishPhase::Done;
        if identity_mismatch {
            ConnectionError::IdentityMismatch(e)
        } else {
            ConnectionError::HandshakeFailure(e)
        }
    }

    /// Whether the one-shot resolution has not happened yet.
    pub fn is_pending(&self) -> (b: bool)
        ensures
            b == (self.phase != EstablishPhase::Done),
    {
        self.phase != EstablishPhase::Done
    }
}

/// An establishment attempt as a build call hands it out: the verified
/// state beside the carried connect capability — the bound provider, or the
/// raw connect operation the caller supplied. A driver takes the capability,
/// performs connect and handshake, and reports each outcome to the state.
pub struct EstablishmentAttempt<C> {
    pub connect: C,
    pub state: EstablishmentState,
}

/// Law: the remote address is fixed at build time and preserved unchanged
/// through every pending phase, so a successful resolution wraps the stream
/// with exactly the address the build call was given.
pub proof fn lemma_remote_addr_preserved(
    config: TrustConfiguration,
    remote_addr: SocketAddress,
    peer_name: String,
)
    ensures
        initial_establishment(config, remote_addr, peer_name).remote_addr == remote_addr,
        after_connect_ok(initial_establishment(config, remote_addr, peer_name)).remote_addr
            == remote_addr,
        after_connect_ok(initial_establishment(config, remote_addr, peer_name)).phase
            == EstablishPhase::Handshaking,
        after_resolution(
            after_connect_ok(initial_establishment(config, remote_addr, peer_name)),
        ).remote_addr == remote_addr,
{
}

/// Law: a connect-step failure resolves to a connect-failure value whose
/// preserved cause is exactly the raw error, losslessly.
pub proof fn lemma_connect_failure_lossless(e: RawError)
    ensures
        connect_failure_resolution(e) == ConnectionError::ConnectFailure(e),
        connect_failure_resolution(e).cause_spec() == e,
{
}

/// Law: a handshake failure resolves to an identity-mismatch value exactly
/// when the peer identity check failed, and to a handshake-failure value
/// otherwise; it is never a connect failure and never a success, and the
/// cause is preserved either way.
pub proof fn lemma_handshake_failure_classified(identity_mismatch: bool, e: RawError)
    ensures
        identity_mismatch ==> handshake_failure_resolution(identity_mismatch, e)
            == ConnectionError::IdentityMismatch(e),
        !identity_mismatch ==> handshake_failure_resolution(identity_mismatch, e)
            == ConnectionError::HandshakeFailure(e),
        handshake_failure_resolution(identity_mismatch, e).cause_spec() == e,
        !(handshake_failure_resolution(identity_mismatch, e) is ConnectFailure),
{
}

/// Law: resolution is one-shot. Every resolving transition leaves the
/// attempt terminal, resolving again changes nothing, and no transition
/// applies to a terminal attempt (each transition's precondition names a
/// pending phase).
pub proof fn lemma_single_resolution(s: EstablishmentState)
    ensures
        after_resolution(s).phase == EstablishPhase::Done,
        after_resolution(after_resolution(s)) == after_resolution(s),
{
}

/// Law: build calls are independent. Each yields a fresh attempt whose
/// state is fully determined by its own configuration snapshot and
/// arguments — equal inputs give equal states — so no two attempts share
/// mutable state and driving one cannot affect another.
pub proof fn lemma_builds_independent(
    c1: TrustConfiguration,
    r1: SocketAddress,
    p1: String,
    c2: TrustConfiguration,
    r2: SocketAddress,
    p2: String,
)
    ensures
        initial_establishment(c1, r1, p1).phase == EstablishPhase::Connecting,
        initial_establishment(c2, r2, p2).phase == EstablishPhase::Connecting,
        c1 == c2 && r1 == r2 && p1 == p2 ==> initial_establishment(c1, r1, p1)
            == initial_establishment(c2, r2, p2),
{
}

} // verus!
