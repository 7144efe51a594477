//! The session as its driver holds it: the handshake state, and the
//! operations of the stream on top of it.

use crate::cert_chain::CertChainContext;
use crate::error::ErrorKind;
use crate::event::{Action, Event};
use crate::handshake::{failure, Negotiation};
use crate::model::{
    handshake_step, initiate_step, not_established, read_step, shutdown_step, write_step,
    StateView,
};
use crate::schannel_cred::{Capabilities, SchannelCred};
use crate::session::Session;
use vstd::prelude::*;

verus! {

/// The peer's chain, where there is one, by the encoded bytes of its
/// certificates.
pub open spec fn chain_view(chain: Option<CertChainContext>) -> Option<Seq<Seq<Seq<u8>>>> {
    match chain {
        Some(context) => Some(context@),
        None => None,
    }
}

/// The state of a session.
#[derive(Debug)]
pub enum HandshakeState {
    /// No credential was given yet.
    NotStarted,
    /// The negotiation is under way.
    InProgress(Negotiation),
    /// The session is established. It owns the peer's verified chain where
    /// verification was asked for.
    Established(Session, Option<CertChainContext>),
    /// The session has failed, for good. The flag says whether it would fail
    /// on any transport.
    Failed(ErrorKind, bool),
}

impl View for HandshakeState {
    type V = StateView;

    open spec fn view(&self) -> StateView {
        match *self {
            HandshakeState::NotStarted => StateView::NotStarted,
            HandshakeState::InProgress(n) => StateView::InProgress(n@),
            HandshakeState::Established(session, chain) => StateView::Established(
                session@,
                chain_view(chain),
            ),
            HandshakeState::Failed(kind, permanent) => StateView::Failed(kind, permanent),
        }
    }
}

impl HandshakeState {
    /// What an operation of the stream answers on a session that is not
    /// established.
    fn not_established(self) -> (step: (HandshakeState, Action))
        requires
            !(self is Established),
        ensures
            (step.0@, step.1) == not_established(self@),
    {
        match self {
            HandshakeState::NotStarted => (self, Action::Initiate),
            HandshakeState::Failed(kind, permanent) => (
                HandshakeState::Failed(kind, permanent),
                Action::Failed(kind),
            ),
            _ => (self, Action::Failed(ErrorKind::Interrupted)),
        }
    }

    /// Starts a session with a credential, for a target that offers
    /// `target`, or for any target if `None` is given. A credential that
    /// cannot serve the target fails the session at once, with an algorithm
    /// mismatch and before anything is sent.
    pub fn initiate(self, cred: &SchannelCred, target: Option<&Capabilities>, verify_peer: bool) -> (step:
        (HandshakeState, Action))
        ensures
            (step.0@, step.1) == initiate_step(
                self@,
                match target {
                    Some(offer) => cred.spec_supports(*offer),
                    None => true,
                },
                verify_peer,
            ),
    {
        match self {
            HandshakeState::NotStarted => {
                let supported = match target {
                    Some(offer) => cred.supports(offer),
                    None => true,
                };
                if supported {
                    Negotiation::new(verify_peer).settle()
                } else {
                    failure(ErrorKind::AlgorithmMismatch)
                }
            },
            HandshakeState::InProgress(n) => n.settle(),
            HandshakeState::Established(session, chain) => (
                HandshakeState::Established(session, chain),
                Action::Established,
            ),
            HandshakeState::Failed(kind, permanent) => (
                HandshakeState::Failed(kind, permanent),
                Action::Failed(kind),
            ),
        }
    }

    /// One step of the handshake.
    pub fn handshake(self, event: Event) -> (step: (HandshakeState, Action))
        ensures
            (step.0@, step.1) == handshake_step(self@, event@),
    {
        match self {
            HandshakeState::NotStarted => (self, Action::Initiate),
            HandshakeState::InProgress(n) => n.step(event),
            HandshakeState::Established(session, chain) => (
                HandshakeState::Established(session, chain),
                Action::Established,
            ),
            HandshakeState::Failed(kind, permanent) => (
                HandshakeState::Failed(kind, permanent),
                Action::Failed(kind),
            ),
        }
    }

    /// One step of a write of a payload of `len` bytes.
    pub fn write(self, len: usize, event: Event) -> (step: (HandshakeState, Action))
        ensures
            (step.0@, step.1) == write_step(self@, len, event@),
    {
        match self {
            HandshakeState::Established(session, chain) => session.write(chain, len, event),
            _ => self.not_established(),
        }
    }

    /// One step of a read for a caller that takes up to `limit` bytes. What
    /// is delivered is appended to `out`.
    pub fn read(self, out: &mut Vec<u8>, limit: usize, event: Event) -> (step: (
        HandshakeState,
        Action,
    ))
        ensures
            step.0@ == read_step(self@, limit, event@).state,
            step.1 == read_step(self@, limit, event@).action,
            final(out)@ == old(out)@ + read_step(self@, limit, event@).delivered,
    {
        match self {
            HandshakeState::Established(session, chain) => session.read(chain, out, limit, event),
            _ => {
                assert(out@ =~= out@ + Seq::<u8>::empty());
                self.not_established()
            },
        }
    }

    /// One step of the orderly close.
    pub fn shutdown(self, event: Event) -> (step: (HandshakeState, Action))
        ensures
            (step.0@, step.1) == shutdown_step(self@, event@),
    {
        match self {
            HandshakeState::Established(session, chain) => session.shutdown(chain, event),
            _ => self.not_established(),
        }
    }
}

/// The bytes that a transmit action is about: the output that the
/// transport has not accepted yet.
pub open spec fn pending_output_of(s: StateView) -> Seq<u8> {
    match s {
        StateView::InProgress(n) => n.pending_output,
        StateView::Established(session, _) => session.outgoing,
        _ => Seq::empty(),
    }
}

/// The bytes that a negotiate or decrypt action is about: the input that
/// the engine has not consumed yet.
pub open spec fn pending_input_of(s: StateView) -> Seq<u8> {
    match s {
        StateView::InProgress(n) => n.pending_input,
        StateView::Established(session, _) => session.buffers.encrypted,
        _ => Seq::empty(),
    }
}

/// The chain of the peer that an established session owns.
pub open spec fn peer_chain_of(s: StateView) -> Option<Seq<Seq<Seq<u8>>>> {
    match s {
        StateView::Established(_, chain) => chain,
        _ => None,
    }
}

/// The stored failure of a session.
pub open spec fn failure_of(s: StateView) -> Option<ErrorKind> {
    match s {
        StateView::Failed(kind, _) => Some(kind),
        _ => None,
    }
}

/// A builder type for `TlsStream`s.
#[derive(Debug)]
pub struct Builder {
    domain: Option<String>,
    verify_peer: bool,
    target: Option<Capabilities>,
}

impl Builder {
    /// The name that the peer is expected to present.
    pub closed spec fn spec_domain(self) -> Option<Seq<char>> {
        match self.domain {
            Some(name) => Some(name@),
            None => None,
        }
    }

    /// Whether the peer's identity is verified before the session is used.
    pub closed spec fn spec_verify_peer(self) -> bool {
        self.verify_peer
    }

    /// What the target is known to offer.
    pub closed spec fn spec_target(self) -> Option<Capabilities> {
        self.target
    }

    /// Whether a credential can serve the target of this builder.
    pub open spec fn spec_serves(self, cred: SchannelCred) -> bool {
        match self.spec_target() {
            Some(offer) => cred.spec_supports(offer),
            None => true,
        }
    }

    /// Returns a new `Builder`: no expected name, any target, and the peer
    /// is verified.
    pub fn new() -> (builder: Builder)
        ensures
            builder.spec_domain().is_none(),
            builder.spec_verify_peer(),
            builder.spec_target().is_none(),
    {
        Builder { domain: None, verify_peer: true, target: None }
    }

    /// Sets the domain associated with connections created with this
    /// `Builder`: the name that the peer has to present, and the server name
    /// that is indicated to it.
    pub fn domain(self, domain: &str) -> (builder: Builder)
        ensures
            builder.spec_domain() == Some(domain@),
            builder.spec_verify_peer() == self.spec_verify_peer(),
            builder.spec_target() == self.spec_target(),
    {
        Builder { domain: Some(domain.to_owned()), verify_peer: self.verify_peer, target: self.target }
    }

    /// Says whether the peer's identity is to be verified once the
    /// negotiation has succeeded.
    pub fn verify_peer(self, verify_peer: bool) -> (builder: Builder)
        ensures
            builder.spec_domain() == self.spec_domain(),
            builder.spec_verify_peer() == verify_peer,
            builder.spec_target() == self.spec_target(),
    {
        Builder { domain: self.domain, verify_peer, target: self.target }
    }

    /// Says what the target offers, so that a credential that cannot serve
    /// it is turned down before anything is sent.
    pub fn target(self, target: Capabilities) -> (builder: Builder)
        ensures
            builder.spec_domain() == self.spec_domain(),
            builder.spec_verify_peer() == self.spec_verify_peer(),
            builder.spec_target() == Some(target),
    {
        Builder { domain: self.domain, verify_peer: self.verify_peer, target: Some(target) }
    }

    /// Initialize a new TLS session with a credential. The session comes
    /// back with its negotiation about to begin, or failed with an algorithm
    /// mismatch if the credential cannot serve the target.
    pub fn initialize(self, cred: SchannelCred) -> (stream: TlsStream)
        ensures
            stream@ == initiate_step(
                StateView::NotStarted,
                self.spec_serves(cred),
                self.spec_verify_peer(),
            ).0,
            stream.spec_domain() == self.spec_domain(),
            stream.spec_cred() == cred,
    {
        let (state, _) = HandshakeState::NotStarted.initiate(
            &cred,
            self.target.as_ref(),
            self.verify_peer,
        );
        TlsStream { state, domain: self.domain, cred }
    }
}

/// A TLS session: the state of its handshake and, once established, of its
/// stream. Every operation is a step: it takes in what the driver reports
/// and answers with what the driver is to do next.
#[derive(Debug)]
pub struct TlsStream {
    state: HandshakeState,
    domain: Option<String>,
    cred: SchannelCred,
}

impl View for TlsStream {
    type V = StateView;

    closed spec fn view(&self) -> StateView {
        self.state@
    }
}

impl TlsStream {
    /// The name that the peer is expected to present.
    pub closed spec fn spec_domain(self) -> Option<Seq<char>> {
        match self.domain {
            Some(name) => Some(name@),
            None => None,
        }
    }

    /// The credential that the session was started with.
    pub closed spec fn spec_cred(self) -> SchannelCred {
        self.cred
    }

    /// The credential that the session was started with.
    pub fn cred(&self) -> (cred: &SchannelCred)
        ensures
            *cred == self.spec_cred(),
    {
        &self.cred
    }

    /// The name that the peer is expected to present.
    pub fn domain(&self) -> (domain: Option<&str>)
        ensures
            match domain {
                Some(name) => self.spec_domain() == Some(name@),
                None => self.spec_domain().is_none(),
            },
    {
        match &self.domain {
            Some(name) => Some(name.as_str()),
            None => None,
        }
    }

    /// The state of the session.
    pub fn state(&self) -> (state: &HandshakeState)
        ensures
            state@ == self@,
    {
        &self.state
    }

    /// Whether the session is established.
    pub fn is_established(&self) -> (b: bool)
        ensures
            b == (self@ is Established),
    {
        match &self.state {
            HandshakeState::Established(_, _) => true,
            _ => false,
        }
    }

    /// The failure that the session has stored, if it has failed.
    pub fn failure(&self) -> (kind: Option<ErrorKind>)
        ensures
            kind == failure_of(self@),
    {
        match &self.state {
            HandshakeState::Failed(kind, _) => Some(*kind),
            _ => None,
        }
    }

    /// The output that a transmit action is about, first unsent byte first.
    pub fn pending_output(&self) -> (bytes: Option<&[u8]>)
        ensures
            match bytes {
                Some(b) => b@ == pending_output_of(self@) && (self@ is InProgress
                    || self@ is Established),
                None => !(self@ is InProgress) && !(self@ is Established),
            },
    {
        match &self.state {
            HandshakeState::InProgress(n) => Some(n.pending_output()),
            HandshakeState::Established(session, _) => Some(session.pending_output()),
            _ => None,
        }
    }

    /// The input that a negotiate or decrypt action is about.
    pub fn pending_input(&self) -> (bytes: Option<&[u8]>)
        ensures
            match bytes {
                Some(b) => b@ == pending_input_of(self@) && (self@ is InProgress
                    || self@ is Established),
                None => !(self@ is InProgress) && !(self@ is Established),
            },
    {
        match &self.state {
            HandshakeState::InProgress(n) => Some(n.pending_input()),
            HandshakeState::Established(session, _) => Some(session.pending_input()),
            _ => None,
        }
    }

    /// The peer's verified chain, if the session is established and
    /// verification was asked for. The chain that comes back shares its
    /// data with the session's and outlives it.
    pub fn peer_chain(&self) -> (chain: Option<CertChainContext>)
        ensures
            chain_view(chain) == peer_chain_of(self@),
    {
        match &self.state {
            HandshakeState::Established(_, Some(context)) => Some(context.clone()),
            _ => None,
        }
    }

    /// One step of the handshake.
    pub fn handshake(&mut self, event: Event) -> (action: Action)
        ensures
            (final(self)@, action) == handshake_step(old(self)@, event@),
            final(self).spec_domain() == old(self).spec_domain(),
            final(self).spec_cred() == old(self).spec_cred(),
    {
        let mut state = HandshakeState::NotStarted;
        core::mem::swap(&mut self.state, &mut state);
        let (next, action) = state.handshake(event);
        self.state = next;
        action
    }

    /// One step of a write of a payload of `len` bytes.
    ///
    /// On an established session, as much of the payload as one record may
    /// hold is encrypted, and the records are written to the transport; a
    /// transport that takes only part of them is given the rest, from the
    /// first byte it did not take. The write ends with the number of payload
    /// bytes that went out. A failed session answers with its stored
    /// failure and asks for nothing.
    pub fn write(&mut self, len: usize, event: Event) -> (action: Action)
        ensures
            (final(self)@, action) == write_step(old(self)@, len, event@),
            final(self).spec_domain() == old(self).spec_domain(),
            final(self).spec_cred() == old(self).spec_cred(),
    {
        let mut state = HandshakeState::NotStarted;
        core::mem::swap(&mut self.state, &mut state);
        let (next, action) = state.write(len, event);
        self.state = next;
        action
    }

    /// One step of a read for a caller that takes up to `limit` bytes.
    ///
    /// On an established session, decrypted leftovers are delivered first;
    /// otherwise input is read and decrypted, and what the caller does not
    /// take is kept for the next read. What is delivered is appended to
    /// `out`. A read that ends with no bytes and no failure means that the
    /// peer has closed the stream in an orderly way.
    pub fn read(&mut self, out: &mut Vec<u8>, limit: usize, event: Event) -> (action: Action)
        ensures
            final(self)@ == read_step(old(self)@, limit, event@).state,
            action == read_step(old(self)@, limit, event@).action,
            final(out)@ == old(out)@ + read_step(old(self)@, limit, event@).delivered,
            final(self).spec_domain() == old(self).spec_domain(),
            final(self).spec_cred() == old(self).spec_cred(),
    {
        let mut state = HandshakeState::NotStarted;
        core::mem::swap(&mut self.state, &mut state);
        let (next, action) = state.read(out, limit, event);
        self.state = next;
        action
    }

    /// One step of the orderly close: the engine's close notification is
    /// queued behind whatever is pending and written to the transport.
    pub fn shutdown(&mut self, event: Event) -> (action: Action)
        ensures
            (final(self)@, action) == shutdown_step(old(self)@, event@),
            final(self).spec_domain() == old(self).spec_domain(),
            final(self).spec_cred() == old(self).spec_cred(),
    {
        let mut state = HandshakeState::NotStarted;
        core::mem::swap(&mut self.state, &mut state);
        let (next, action) = state.shutdown(event);
        self.state = next;
        action
    }

    /// How the handshake has ended, or that it has not: the session itself
    /// if it is established, its failure if it has failed, and otherwise the
    /// session in the middle of its handshake, to be driven on.
    pub fn into_result(self) -> (result: Result<TlsStream, HandshakeError>)
        ensures
            match result {
                Ok(stream) => self@ is Established && stream == self,
                Err(HandshakeError::Failure(kind)) => failure_of(self@) == Some(kind),
                Err(HandshakeError::Interrupted(mid)) => !(self@ is Established) && !(self@
                    is Failed) && mid.spec_stream() == self,
            },
    {
        match &self.state {
            HandshakeState::Established(_, _) => Ok(self),
            HandshakeState::Failed(kind, _) => Err(HandshakeError::Failure(*kind)),
            _ => Err(HandshakeError::Interrupted(MidHandshakeTlsStream { inner: self })),
        }
    }
}

/// A stream which has not yet completed its handshake.
#[derive(Debug)]
pub struct MidHandshakeTlsStream {
    inner: TlsStream,
}

impl MidHandshakeTlsStream {
    /// The session in the middle of its handshake.
    pub closed spec fn spec_stream(self) -> TlsStream {
        self.inner
    }

    /// Returns a shared reference to the inner stream.
    pub fn get_ref(&self) -> (stream: &TlsStream)
        ensures
            *stream == self.spec_stream(),
    {
        &self.inner
    }

    /// Gives the session back, to drive its handshake on.
    pub fn into_stream(self) -> (stream: TlsStream)
        ensures
            stream == self.spec_stream(),
    {
        self.inner
    }
}

/// A failure which can happen during the `Builder::initialize` phase, either
/// an I/O error or an intermediate stream which has not yet completed its
/// handshake.
#[derive(Debug)]
pub enum HandshakeError {
    /// A fatal failure happened and the stream could not be created.
    Failure(ErrorKind),
    /// The handshake was interrupted before it finished: the transport was
    /// not ready. The session inside can be driven on.
    Interrupted(MidHandshakeTlsStream),
}

} // verus!
