//! The negotiation of a session: the rounds between the transport and the
//! security engine that lead from a credential to an established session or
//! to a failure.

use crate::buffers::{append, drain_front};
use crate::error::{ErrorKind, SEC_E_INTERNAL_ERROR};
use crate::event::{Action, Event};
use crate::model::{
    awaited, fail, inconsistent, negotiation_step, opening, settle, NegotiationView,
};
use crate::session::Session;
use crate::tls_stream::HandshakeState;
use vstd::prelude::*;

verus! {

/// A negotiation in progress: what is pending in either direction, and how
/// far the engine has come. Everything a later call needs to go on where
/// this one stopped is in here.
#[derive(Debug)]
pub struct Negotiation {
    pending_output: Vec<u8>,
    pending_input: Vec<u8>,
    needs_input: bool,
    verify_peer: bool,
    negotiated: Option<usize>,
}

impl View for Negotiation {
    type V = NegotiationView;

    closed spec fn view(&self) -> NegotiationView {
        NegotiationView {
            pending_output: self.pending_output@,
            pending_input: self.pending_input@,
            needs_input: self.needs_input,
            verify_peer: self.verify_peer,
            negotiated: self.negotiated,
        }
    }
}

/// The failed state for a kind, and the action that reports it.
pub fn failure(kind: ErrorKind) -> (step: (HandshakeState, Action))
    ensures
        (step.0@, step.1) == fail(kind),
{
    (HandshakeState::Failed(kind, kind.is_permanent()), Action::Failed(kind))
}

impl Negotiation {
    /// A negotiation at its beginning.
    pub fn new(verify_peer: bool) -> (n: Negotiation)
        ensures
            n@ == opening(verify_peer),
    {
        Negotiation {
            pending_output: Vec::new(),
            pending_input: Vec::new(),
            needs_input: false,
            verify_peer,
            negotiated: None,
        }
    }

    /// The output that the transport has not accepted yet, first byte first.
    pub fn pending_output(&self) -> (bytes: &[u8])
        ensures
            bytes@ == self@.pending_output,
    {
        self.pending_output.as_slice()
    }

    /// The input that the engine has not consumed yet, first byte first.
    pub fn pending_input(&self) -> (bytes: &[u8])
        ensures
            bytes@ == self@.pending_input,
    {
        self.pending_input.as_slice()
    }

    /// What the negotiation is waiting for.
    pub fn awaited(&self) -> (action: Action)
        ensures
            action == awaited(self@),
    {
        if self.pending_output.len() > 0 {
            Action::Transmit
        } else {
            match self.negotiated {
                Some(_) => if self.verify_peer {
                    Action::Verify
                } else {
                    Action::Established
                },
                None => if self.needs_input {
                    Action::Receive
                } else {
                    Action::Negotiate
                },
            }
        }
    }

    /// Where the negotiation stands, and what it needs next.
    pub fn settle(self) -> (step: (HandshakeState, Action))
        ensures
            (step.0@, step.1) == settle(self@),
    {
        if self.pending_output.len() > 0 {
            (HandshakeState::InProgress(self), Action::Transmit)
        } else {
            match self.negotiated {
                Some(max_message) => if self.verify_peer {
                    (HandshakeState::InProgress(self), Action::Verify)
                } else {
                    (
                        HandshakeState::Established(
                            Session::new(max_message, self.pending_input),
                            None,
                        ),
                        Action::Established,
                    )
                },
                None => if self.needs_input {
                    (HandshakeState::InProgress(self), Action::Receive)
                } else {
                    (HandshakeState::InProgress(self), Action::Negotiate)
                },
            }
        }
    }

    /// Takes in the outcome of a round of the engine: drops the input that
    /// the round consumed and queues the output that it produced.
    fn absorb(self, consumed: usize, output: Vec<u8>, negotiated: Option<usize>) -> (step: (
        HandshakeState,
        Action,
    ))
        requires
            awaited(self@) == Action::Negotiate,
        ensures
            (step.0@, step.1) == if consumed <= self@.pending_input.len() {
                settle(
                    NegotiationView {
                        pending_output: output@,
                        pending_input: self@.pending_input.skip(consumed as int),
                        needs_input: negotiated.is_none() && consumed == self@.pending_input.len(),
                        negotiated,
                        ..self@
                    },
                )
            } else {
                fail(inconsistent())
            },
    {
        let mut n = self;
        if consumed <= n.pending_input.len() {
            n.needs_input = negotiated.is_none() && consumed == n.pending_input.len();
            let _ = drain_front(&mut n.pending_input, consumed);
            append(&mut n.pending_output, output);
            n.negotiated = negotiated;
            assert(n@.pending_output =~= output@);
            n.settle()
        } else {
            failure(ErrorKind::EngineFailure(SEC_E_INTERNAL_ERROR))
        }
    }

    /// One step of the negotiation: takes in what the driver reports and
    /// answers with the next state and the next action.
    pub fn step(self, event: Event) -> (step: (HandshakeState, Action))
        ensures
            (step.0@, step.1) == negotiation_step(self@, event@),
    {
        let waiting = self.awaited();
        let mut n = self;
        match event {
            Event::Wrote(count) => {
                if waiting == Action::Transmit {
                    if 1 <= count && count <= n.pending_output.len() {
                        let _ = drain_front(&mut n.pending_output, count);
                        n.settle()
                    } else {
                        failure(ErrorKind::TransportFailure)
                    }
                } else {
                    n.settle()
                }
            },
            Event::Received(bytes) => {
                if waiting == Action::Receive {
                    if bytes.len() > 0 {
                        append(&mut n.pending_input, bytes);
                        n.needs_input = false;
                        n.settle()
                    } else {
                        failure(ErrorKind::TransportFailure)
                    }
                } else {
                    n.settle()
                }
            },
            Event::WouldBlock => {
                if waiting.is_transport() {
                    (HandshakeState::InProgress(n), Action::Failed(ErrorKind::Interrupted))
                } else {
                    n.settle()
                }
            },
            Event::TransportError => {
                if waiting.is_transport() {
                    failure(ErrorKind::TransportFailure)
                } else {
                    n.settle()
                }
            },
            Event::Token { consumed, output } => {
                if waiting == Action::Negotiate {
                    n.absorb(consumed, output, None)
                } else {
                    n.settle()
                }
            },
            Event::Negotiated { consumed, output, max_message } => {
                if waiting == Action::Negotiate {
                    n.absorb(consumed, output, Some(max_message))
                } else {
                    n.settle()
                }
            },
            Event::Incomplete => {
                if waiting == Action::Negotiate {
                    n.needs_input = true;
                    n.settle()
                } else {
                    n.settle()
                }
            },
            Event::Rejected(status) => {
                if waiting == Action::Negotiate {
                    failure(ErrorKind::from_status(status))
                } else {
                    n.settle()
                }
            },
            Event::Verified(chain) => {
                if waiting == Action::Verify {
                    match n.negotiated {
                        Some(max_message) => (
                            HandshakeState::Established(
                                Session::new(max_message, n.pending_input),
                                Some(chain),
                            ),
                            Action::Established,
                        ),
                        None => n.settle(),
                    }
                } else {
                    n.settle()
                }
            },
            Event::VerificationFailed(status) => {
                if waiting == Action::Verify {
                    failure(ErrorKind::from_status(status))
                } else {
                    n.settle()
                }
            },
            _ => n.settle(),
        }
    }
}

} // verus!
