//! The session as a state machine over plain values.
//!
//! A state and an event give the next state and an action. The executable
//! session in the other modules computes exactly these functions; what holds
//! of every run of a session is stated and proved here, over them.

use crate::buffers::{spec_min, StreamBuffersView};
use crate::error::{ErrorKind, SEC_E_CONTEXT_EXPIRED, SEC_E_INTERNAL_ERROR};
use crate::event::{Action, EventView};
use vstd::prelude::*;

verus! {

/// How far the orderly close of a session has come.
#[derive(Clone, Copy, Debug, PartialEq, Eq, Structural)]
pub enum Closing {
    /// No close was asked for.
    Open,
    /// The close notification is queued and not yet fully sent.
    Sending,
    /// The close notification was sent.
    Closed,
}

/// A negotiation in progress.
pub struct NegotiationView {
    /// Output of the engine that the transport has not accepted yet.
    pub pending_output: Seq<u8>,
    /// Input from the transport that the engine has not consumed yet.
    pub pending_input: Seq<u8>,
    /// The engine asked for more input than is pending.
    pub needs_input: bool,
    /// The peer's identity is to be verified before the session is used.
    pub verify_peer: bool,
    /// The engine reported success, with this payload limit per record.
    pub negotiated: Option<usize>,
}

/// An established session.
pub struct SessionView {
    /// The payload limit per record that the engine negotiated.
    pub max_message: usize,
    /// Records that the transport has not accepted yet.
    pub outgoing: Seq<u8>,
    /// How many payload bytes the records in `outgoing` were made from.
    pub enveloped: usize,
    /// Leftover input, encrypted and decrypted.
    pub buffers: StreamBuffersView,
    /// The engine asked for more input than is pending.
    pub needs_input: bool,
    /// The peer has closed the stream in an orderly way.
    pub peer_closed: bool,
    /// How far this side's orderly close has come.
    pub closing: Closing,
}

/// The state of a session.
pub enum StateView {
    /// No credential was given yet.
    NotStarted,
    /// The negotiation is under way.
    InProgress(NegotiationView),
    /// The session is established, with the peer's verified chain where
    /// verification was asked for.
    Established(SessionView, Option<Seq<Seq<Seq<u8>>>>),
    /// The session has failed. The flag says whether it would fail on any
    /// transport.
    Failed(ErrorKind, bool),
}

/// The condition reported for a session that this side has closed.
pub open spec fn expired() -> ErrorKind {
    ErrorKind::EngineFailure(SEC_E_CONTEXT_EXPIRED)
}

/// The condition reported where the engine's answer contradicts what it was
/// given.
pub open spec fn inconsistent() -> ErrorKind {
    ErrorKind::EngineFailure(SEC_E_INTERNAL_ERROR)
}

/// The failure of a session: the kind is stored, and reported as the result
/// of the operation.
pub open spec fn fail(kind: ErrorKind) -> (StateView, Action) {
    (StateView::Failed(kind, kind.spec_is_permanent()), Action::Failed(kind))
}

/// Whether the transport can have accepted `count` bytes of an output.
pub open spec fn accepted(count: usize, output: Seq<u8>) -> bool {
    1 <= count <= output.len()
}

/// The state in which a negotiation begins: nothing pending, and the engine
/// is to produce the opening message.
pub open spec fn opening(verify_peer: bool) -> NegotiationView {
    NegotiationView {
        pending_output: Seq::empty(),
        pending_input: Seq::empty(),
        needs_input: false,
        verify_peer,
        negotiated: None,
    }
}

/// The session that a finished negotiation leaves: the input that the
/// negotiation did not consume is the first input of the stream.
pub open spec fn session_of(n: NegotiationView, max_message: usize) -> SessionView {
    SessionView {
        max_message,
        outgoing: Seq::empty(),
        enveloped: 0,
        buffers: StreamBuffersView { encrypted: n.pending_input, decrypted: Seq::empty() },
        needs_input: n.pending_input.len() == 0,
        peer_closed: false,
        closing: Closing::Open,
    }
}

/// Where a negotiation stands once an event has been taken in, and what it
/// needs next. Pending output goes out before anything else; a negotiated
/// session is verified, if that was asked for, before it is established.
pub open spec fn settle(n: NegotiationView) -> (StateView, Action) {
    if n.pending_output.len() > 0 {
        (StateView::InProgress(n), Action::Transmit)
    } else {
        match n.negotiated {
            Some(max_message) => if n.verify_peer {
                (StateView::InProgress(n), Action::Verify)
            } else {
                (StateView::Established(session_of(n, max_message), None), Action::Established)
            },
            None => if n.needs_input {
                (StateView::InProgress(n), Action::Receive)
            } else {
                (StateView::InProgress(n), Action::Negotiate)
            },
        }
    }
}

/// What a negotiation is waiting for.
pub open spec fn awaited(n: NegotiationView) -> Action {
    settle(n).1
}

/// One step of a negotiation. An event counts only if it answers the action
/// that the negotiation is waiting for; any other leaves the state as it is.
pub open spec fn negotiation_step(n: NegotiationView, e: EventView) -> (StateView, Action) {
    let waiting = awaited(n);
    match e {
        EventView::Wrote(count) => if waiting == Action::Transmit {
            if accepted(count, n.pending_output) {
                settle(NegotiationView { pending_output: n.pending_output.skip(count as int), ..n })
            } else {
                fail(ErrorKind::TransportFailure)
            }
        } else {
            settle(n)
        },
        EventView::Received(bytes) => if waiting == Action::Receive {
            if bytes.len() > 0 {
                settle(
                    NegotiationView {
                        pending_input: n.pending_input + bytes,
                        needs_input: false,
                        ..n
                    },
                )
            } else {
                fail(ErrorKind::TransportFailure)
            }
        } else {
            settle(n)
        },
        EventView::WouldBlock => if waiting.spec_is_transport() {
            (StateView::InProgress(n), Action::Failed(ErrorKind::Interrupted))
        } else {
            settle(n)
        },
        EventView::TransportError => if waiting.spec_is_transport() {
            fail(ErrorKind::TransportFailure)
        } else {
            settle(n)
        },
        EventView::Token { consumed, output } => if waiting == Action::Negotiate {
            if consumed <= n.pending_input.len() {
                settle(
                    NegotiationView {
                        pending_output: output,
                        pending_input: n.pending_input.skip(consumed as int),
                        needs_input: consumed == n.pending_input.len(),
                        ..n
                    },
                )
            } else {
                fail(inconsistent())
            }
        } else {
            settle(n)
        },
        EventView::Negotiated { consumed, output, max_message } => if waiting
            == Action::Negotiate {
            if consumed <= n.pending_input.len() {
                settle(
                    NegotiationView {
                        pending_output: output,
                        pending_input: n.pending_input.skip(consumed as int),
                        needs_input: false,
                        negotiated: Some(max_message),
                        ..n
                    },
                )
            } else {
                fail(inconsistent())
            }
        } else {
            settle(n)
        },
        EventView::Incomplete => if waiting == Action::Negotiate {
            settle(NegotiationView { needs_input: true, ..n })
        } else {
            settle(n)
        },
        EventView::Rejected(status) => if waiting == Action::Negotiate {
            fail(ErrorKind::spec_from_status(status as int))
        } else {
            settle(n)
        },
        EventView::Verified(chain) => if waiting == Action::Verify {
            (
                StateView::Established(session_of(n, n.negotiated.unwrap()), Some(chain)),
                Action::Established,
            )
        } else {
            settle(n)
        },
        EventView::VerificationFailed(status) => if waiting == Action::Verify {
            fail(ErrorKind::spec_from_status(status as int))
        } else {
            settle(n)
        },
        _ => settle(n),
    }
}

/// One step of the handshake, from any state. Only a negotiation in progress
/// moves: a session without a credential asks for one, an established
/// session says so, and a failed session reports its stored failure.
pub open spec fn handshake_step(s: StateView, e: EventView) -> (StateView, Action) {
    match s {
        StateView::NotStarted => (s, Action::Initiate),
        StateView::InProgress(n) => negotiation_step(n, e),
        StateView::Established(_, _) => (s, Action::Established),
        StateView::Failed(kind, _) => (s, Action::Failed(kind)),
    }
}

/// The start of a session: with a credential that can serve the target, the
/// negotiation begins; with one that cannot, the session fails with an
/// algorithm mismatch before anything is sent. A session that was started
/// before stays as it is.
pub open spec fn initiate_step(s: StateView, supported: bool, verify_peer: bool) -> (
    StateView,
    Action,
) {
    match s {
        StateView::NotStarted => if supported {
            settle(opening(verify_peer))
        } else {
            fail(ErrorKind::AlgorithmMismatch)
        },
        StateView::InProgress(n) => settle(n),
        StateView::Established(_, _) => (s, Action::Established),
        StateView::Failed(kind, _) => (s, Action::Failed(kind)),
    }
}

/// What a write on an established, open session is waiting for: records
/// that are still pending go out first; otherwise as much of the payload as
/// one record may hold is encrypted.
pub open spec fn write_awaited(sess: SessionView, len: usize) -> Action {
    if sess.outgoing.len() > 0 {
        Action::Transmit
    } else {
        Action::Encrypt(spec_min(len as int, sess.max_message as int) as usize)
    }
}

/// One step of a write on an established session, for a payload of `len`
/// bytes.
pub open spec fn session_write(
    sess: SessionView,
    chain: Option<Seq<Seq<Seq<u8>>>>,
    len: usize,
    e: EventView,
) -> (StateView, Action) {
    let waiting = write_awaited(sess, len);
    let stay = (StateView::Established(sess, chain), waiting);
    if sess.closing != Closing::Open {
        (StateView::Established(sess, chain), Action::Failed(expired()))
    } else {
        match e {
            EventView::Wrote(count) => if waiting == Action::Transmit {
                if accepted(count, sess.outgoing) {
                    if count == sess.outgoing.len() {
                        (
                            StateView::Established(
                                SessionView { outgoing: Seq::empty(), enveloped: 0, ..sess },
                                chain,
                            ),
                            Action::Written(sess.enveloped),
                        )
                    } else {
                        (
                            StateView::Established(
                                SessionView { outgoing: sess.outgoing.skip(count as int), ..sess },
                                chain,
                            ),
                            Action::Transmit,
                        )
                    }
                } else {
                    fail(ErrorKind::TransportFailure)
                }
            } else {
                stay
            },
            EventView::WouldBlock => if waiting == Action::Transmit {
                (StateView::Established(sess, chain), Action::Failed(ErrorKind::Interrupted))
            } else {
                stay
            },
            EventView::TransportError => if waiting == Action::Transmit {
                fail(ErrorKind::TransportFailure)
            } else {
                stay
            },
            EventView::Encrypted(records) => if waiting != Action::Transmit {
                if records.len() > 0 {
                    (
                        StateView::Established(
                            SessionView {
                                outgoing: records,
                                enveloped: spec_min(len as int, sess.max_message as int) as usize,
                                ..sess
                            },
                            chain,
                        ),
                        Action::Transmit,
                    )
                } else {
                    fail(inconsistent())
                }
            } else {
                stay
            },
            EventView::Rejected(status) => if waiting != Action::Transmit {
                fail(ErrorKind::spec_from_status(status as int))
            } else {
                stay
            },
            _ => stay,
        }
    }
}

/// The result of one step of a read: the next state, the action, and the
/// bytes that were delivered to the caller in this step.
pub struct ReadStep {
    pub state: StateView,
    pub action: Action,
    pub delivered: Seq<u8>,
}

/// A step of a read that delivers nothing.
pub open spec fn no_delivery(step: (StateView, Action)) -> ReadStep {
    ReadStep { state: step.0, action: step.1, delivered: Seq::empty() }
}

/// Where a read stands once an event has been taken in. Decrypted leftovers
/// are delivered first, as many as the caller takes; then the end of the
/// stream is reported if the peer has closed it; then more input is read or
/// decrypted.
pub open spec fn read_settle(
    sess: SessionView,
    chain: Option<Seq<Seq<Seq<u8>>>>,
    limit: usize,
) -> ReadStep {
    if sess.buffers.decrypted.len() > 0 {
        let count = spec_min(limit as int, sess.buffers.decrypted.len() as int);
        ReadStep {
            state: StateView::Established(
                SessionView {
                    buffers: StreamBuffersView {
                        decrypted: sess.buffers.decrypted.skip(count),
                        ..sess.buffers
                    },
                    ..sess
                },
                chain,
            ),
            action: Action::Read(count as usize),
            delivered: sess.buffers.decrypted.take(count),
        }
    } else if sess.peer_closed {
        no_delivery((StateView::Established(sess, chain), Action::Read(0)))
    } else if sess.needs_input || sess.buffers.encrypted.len() == 0 {
        no_delivery((StateView::Established(sess, chain), Action::Receive))
    } else {
        no_delivery((StateView::Established(sess, chain), Action::Decrypt))
    }
}

/// One step of a read on an established session, for a caller that takes up
/// to `limit` bytes.
pub open spec fn session_read(
    sess: SessionView,
    chain: Option<Seq<Seq<Seq<u8>>>>,
    limit: usize,
    e: EventView,
) -> ReadStep {
    let waiting = read_settle(sess, chain, limit).action;
    if sess.closing == Closing::Closed {
        no_delivery((StateView::Established(sess, chain), Action::Failed(expired())))
    } else {
        match e {
            EventView::Received(bytes) => if waiting == Action::Receive {
                if bytes.len() > 0 {
                    read_settle(
                        SessionView {
                            buffers: StreamBuffersView {
                                encrypted: sess.buffers.encrypted + bytes,
                                ..sess.buffers
                            },
                            needs_input: false,
                            ..sess
                        },
                        chain,
                        limit,
                    )
                } else {
                    no_delivery(fail(ErrorKind::TransportFailure))
                }
            } else {
                read_settle(sess, chain, limit)
            },
            EventView::WouldBlock => if waiting == Action::Receive {
                no_delivery(
                    (StateView::Established(sess, chain), Action::Failed(ErrorKind::Interrupted)),
                )
            } else {
                read_settle(sess, chain, limit)
            },
            EventView::TransportError => if waiting == Action::Receive {
                no_delivery(fail(ErrorKind::TransportFailure))
            } else {
                read_settle(sess, chain, limit)
            },
            EventView::Decrypted { consumed, plaintext } => if waiting == Action::Decrypt {
                if consumed <= sess.buffers.encrypted.len() {
                    read_settle(
                        SessionView {
                            buffers: StreamBuffersView {
                                encrypted: sess.buffers.encrypted.skip(consumed as int),
                                decrypted: plaintext,
                            },
                            needs_input: consumed == sess.buffers.encrypted.len(),
                            ..sess
                        },
                        chain,
                        limit,
                    )
                } else {
                    no_delivery(fail(inconsistent()))
                }
            } else {
                read_settle(sess, chain, limit)
            },
            EventView::Incomplete => if waiting == Action::Decrypt {
                no_delivery(
                    (
                        StateView::Established(SessionView { needs_input: true, ..sess }, chain),
                        Action::Receive,
                    ),
                )
            } else {
                read_settle(sess, chain, limit)
            },
            EventView::PeerClosed => if waiting == Action::Decrypt {
                no_delivery(
                    (
                        StateView::Established(SessionView { peer_closed: true, ..sess }, chain),
                        Action::Read(0),
                    ),
                )
            } else {
                read_settle(sess, chain, limit)
            },
            EventView::Rejected(status) => if waiting == Action::Decrypt {
                no_delivery(fail(ErrorKind::spec_from_status(status as int)))
            } else {
                read_settle(sess, chain, limit)
            },
            _ => read_settle(sess, chain, limit),
        }
    }
}

/// Where a shutdown stands while the close notification is going out: it
/// is complete as soon as nothing is pending.
pub open spec fn shutdown_settle(sess: SessionView, chain: Option<Seq<Seq<Seq<u8>>>>) -> (
    StateView,
    Action,
) {
    if sess.outgoing.len() > 0 {
        (StateView::Established(sess, chain), Action::Transmit)
    } else {
        (
            StateView::Established(SessionView { closing: Closing::Closed, ..sess }, chain),
            Action::Closed,
        )
    }
}

/// One step of a shutdown on an established session.
pub open spec fn session_shutdown(
    sess: SessionView,
    chain: Option<Seq<Seq<Seq<u8>>>>,
    e: EventView,
) -> (StateView, Action) {
    match sess.closing {
        Closing::Closed => (StateView::Established(sess, chain), Action::Failed(expired())),
        Closing::Open => match e {
            EventView::Encrypted(record) => if record.len() > 0 {
                (
                    StateView::Established(
                        SessionView {
                            outgoing: sess.outgoing + record,
                            closing: Closing::Sending,
                            ..sess
                        },
                        chain,
                    ),
                    Action::Transmit,
                )
            } else {
                fail(inconsistent())
            },
            EventView::Rejected(status) => fail(ErrorKind::spec_from_status(status as int)),
            _ => (StateView::Established(sess, chain), Action::CloseNotify),
        },
        Closing::Sending => {
            let waiting = shutdown_settle(sess, chain).1;
            match e {
                EventView::Wrote(count) => if waiting == Action::Transmit {
                    if accepted(count, sess.outgoing) {
                        shutdown_settle(
                            SessionView { outgoing: sess.outgoing.skip(count as int), ..sess },
                            chain,
                        )
                    } else {
                        fail(ErrorKind::TransportFailure)
                    }
                } else {
                    shutdown_settle(sess, chain)
                },
                EventView::WouldBlock => if waiting == Action::Transmit {
                    (StateView::Established(sess, chain), Action::Failed(ErrorKind::Interrupted))
                } else {
                    shutdown_settle(sess, chain)
                },
                EventView::TransportError => if waiting == Action::Transmit {
                    fail(ErrorKind::TransportFailure)
                } else {
                    shutdown_settle(sess, chain)
                },
                _ => shutdown_settle(sess, chain),
            }
        },
    }
}

/// What an operation of the stream does on a session that is not
/// established: without a credential it asks for one; during the
/// negotiation it is interrupted, for the handshake has to be driven on
/// first; after a failure it reports the stored failure. Nothing changes.
pub open spec fn not_established(s: StateView) -> (StateView, Action) {
    match s {
        StateView::NotStarted => (s, Action::Initiate),
        StateView::Failed(kind, _) => (s, Action::Failed(kind)),
        _ => (s, Action::Failed(ErrorKind::Interrupted)),
    }
}

/// One step of a write, from any state.
pub open spec fn write_step(s: StateView, len: usize, e: EventView) -> (StateView, Action) {
    match s {
        StateView::Established(sess, chain) => session_write(sess, chain, len, e),
        _ => not_established(s),
    }
}

/// One step of a read, from any state.
pub open spec fn read_step(s: StateView, limit: usize, e: EventView) -> ReadStep {
    match s {
        StateView::Established(sess, chain) => session_read(sess, chain, limit, e),
        _ => no_delivery(not_established(s)),
    }
}

/// One step of a shutdown, from any state.
pub open spec fn shutdown_step(s: StateView, e: EventView) -> (StateView, Action) {
    match s {
        StateView::Established(sess, chain) => session_shutdown(sess, chain, e),
        _ => not_established(s),
    }
}

} // verus!
