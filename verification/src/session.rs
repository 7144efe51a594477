//! The stream adapter: reads, writes and the orderly close of an established
//! session, with the leftovers that each call hands on to the next.

use crate::buffers::{append, drain_front, min, StreamBuffers};
use crate::cert_chain::CertChainContext;
use crate::error::{ErrorKind, SEC_E_CONTEXT_EXPIRED, SEC_E_INTERNAL_ERROR};
use crate::event::{Action, Event};
use crate::handshake::failure;
use crate::model::{
    read_settle, session_of, session_read, session_shutdown, session_write, shutdown_settle,
    Closing, NegotiationView, SessionView,
};
use crate::tls_stream::{chain_view, HandshakeState};
use vstd::prelude::*;

verus! {

/// An established session.
#[derive(Debug)]
pub struct Session {
    max_message: usize,
    outgoing: Vec<u8>,
    enveloped: usize,
    buffers: StreamBuffers,
    needs_input: bool,
    peer_closed: bool,
    closing: Closing,
}

impl View for Session {
    type V = SessionView;

    closed spec fn view(&self) -> SessionView {
        SessionView {
            max_message: self.max_message,
            outgoing: self.outgoing@,
            enveloped: self.enveloped,
            buffers: self.buffers@,
            needs_input: self.needs_input,
            peer_closed: self.peer_closed,
            closing: self.closing,
        }
    }
}

impl Session {
    /// The session that a finished negotiation leaves, with the payload
    /// limit that was negotiated and the input that was left over.
    pub fn new(max_message: usize, leftover: Vec<u8>) -> (session: Session)
        ensures
            session@.max_message == max_message,
            session@.outgoing == Seq::<u8>::empty(),
            session@.enveloped == 0,
            session@.buffers.encrypted == leftover@,
            session@.buffers.decrypted == Seq::<u8>::empty(),
            session@.needs_input == (leftover@.len() == 0),
            !session@.peer_closed,
            session@.closing == Closing::Open,
            forall|n: NegotiationView|
                n.pending_input == leftover@ ==> session@ == #[trigger] session_of(n, max_message),
    {
        let needs_input = leftover.len() == 0;
        Session {
            max_message,
            outgoing: Vec::new(),
            enveloped: 0,
            buffers: StreamBuffers::new(leftover),
            needs_input,
            peer_closed: false,
            closing: Closing::Open,
        }
    }

    /// The records that the transport has not accepted yet, first byte
    /// first.
    pub fn pending_output(&self) -> (bytes: &[u8])
        ensures
            bytes@ == self@.outgoing,
    {
        self.outgoing.as_slice()
    }

    /// The input that the engine has not consumed yet, first byte first.
    pub fn pending_input(&self) -> (bytes: &[u8])
        ensures
            bytes@ == self@.buffers.encrypted,
    {
        self.buffers.encrypted()
    }

    /// The decrypted bytes that the caller has not been given yet.
    pub fn get_buf(&self) -> (bytes: &[u8])
        ensures
            bytes@ == self@.buffers.decrypted,
    {
        self.buffers.decrypted()
    }

    /// The payload limit per record.
    pub fn max_message(&self) -> (limit: usize)
        ensures
            limit == self@.max_message,
    {
        self.max_message
    }

    /// How far this side's orderly close has come.
    pub fn closing(&self) -> (closing: Closing)
        ensures
            closing == self@.closing,
    {
        self.closing
    }

    /// Whether the peer has closed the stream in an orderly way.
    pub fn peer_closed(&self) -> (closed: bool)
        ensures
            closed == self@.peer_closed,
    {
        self.peer_closed
    }

    /// One step of a write of a payload of `len` bytes.
    pub fn write(self, chain: Option<CertChainContext>, len: usize, event: Event) -> (step: (
        HandshakeState,
        Action,
    ))
        ensures
            (step.0@, step.1) == session_write(self@, chain_view(chain), len, event@),
    {
        let mut sess = self;
        if sess.closing != Closing::Open {
            return (
                HandshakeState::Established(sess, chain),
                Action::Failed(ErrorKind::EngineFailure(SEC_E_CONTEXT_EXPIRED)),
            );
        }
        let transmitting = sess.outgoing.len() > 0;
        let portion = min(len, sess.max_message);
        let waiting = if transmitting {
            Action::Transmit
        } else {
            Action::Encrypt(portion)
        };
        match event {
            Event::Wrote(count) => {
                if transmitting {
                    if 1 <= count && count <= sess.outgoing.len() {
                        if count == sess.outgoing.len() {
                            let written = sess.enveloped;
                            sess.outgoing = Vec::new();
                            sess.enveloped = 0;
                            (HandshakeState::Established(sess, chain), Action::Written(written))
                        } else {
                            let _ = drain_front(&mut sess.outgoing, count);
                            (HandshakeState::Established(sess, chain), Action::Transmit)
                        }
                    } else {
                        failure(ErrorKind::TransportFailure)
                    }
                } else {
                    (HandshakeState::Established(sess, chain), waiting)
                }
            },
            Event::WouldBlock => {
                if transmitting {
                    (HandshakeState::Established(sess, chain), Action::Failed(ErrorKind::Interrupted))
                } else {
                    (HandshakeState::Established(sess, chain), waiting)
                }
            },
            Event::TransportError => {
                if transmitting {
                    failure(ErrorKind::TransportFailure)
                } else {
                    (HandshakeState::Established(sess, chain), waiting)
                }
            },
            Event::Encrypted(records) => {
                if !transmitting {
                    if records.len() > 0 {
                        sess.outgoing = records;
                        sess.enveloped = portion;
                        (HandshakeState::Established(sess, chain), Action::Transmit)
                    } else {
                        failure(ErrorKind::EngineFailure(SEC_E_INTERNAL_ERROR))
                    }
                } else {
                    (HandshakeState::Established(sess, chain), waiting)
                }
            },
            Event::Rejected(status) => {
                if !transmitting {
                    failure(ErrorKind::from_status(status))
                } else {
                    (HandshakeState::Established(sess, chain), waiting)
                }
            },
            _ => (HandshakeState::Established(sess, chain), waiting),
        }
    }

    /// What a read is waiting for, before any event is taken in.
    fn read_awaited(&self, limit: usize) -> (action: Action)
        ensures
            forall|chain: Option<Seq<Seq<Seq<u8>>>>|
                action == (#[trigger] read_settle(self@, chain, limit)).action,
    {
        let buffered = self.buffers.decrypted().len();
        if buffered > 0 {
            Action::Read(min(limit, buffered))
        } else if self.peer_closed {
            Action::Read(0)
        } else if self.needs_input || self.buffers.encrypted().len() == 0 {
            Action::Receive
        } else {
            Action::Decrypt
        }
    }

    /// Where a read stands: delivers decrypted leftovers into `out`, or says
    /// what is needed to get more.
    fn read_settle(self, chain: Option<CertChainContext>, out: &mut Vec<u8>, limit: usize) -> (step:
        (HandshakeState, Action))
        ensures
            step.0@ == read_settle(self@, chain_view(chain), limit).state,
            step.1 == read_settle(self@, chain_view(chain), limit).action,
            final(out)@ == old(out)@ + read_settle(self@, chain_view(chain), limit).delivered,
    {
        let mut sess = self;
        let buffered = sess.buffers.decrypted().len();
        if buffered > 0 {
            let count = min(limit, buffered);
            let bytes = sess.buffers.take_decrypted(limit);
            append(out, bytes);
            (HandshakeState::Established(sess, chain), Action::Read(count))
        } else if sess.peer_closed {
            assert(out@ =~= out@ + Seq::<u8>::empty());
            (HandshakeState::Established(sess, chain), Action::Read(0))
        } else if sess.needs_input || sess.buffers.encrypted().len() == 0 {
            assert(out@ =~= out@ + Seq::<u8>::empty());
            (HandshakeState::Established(sess, chain), Action::Receive)
        } else {
            assert(out@ =~= out@ + Seq::<u8>::empty());
            (HandshakeState::Established(sess, chain), Action::Decrypt)
        }
    }

    /// One step of a read for a caller that takes up to `limit` bytes. What
    /// is delivered is appended to `out`.
    pub fn read(
        self,
        chain: Option<CertChainContext>,
        out: &mut Vec<u8>,
        limit: usize,
        event: Event,
    ) -> (step: (HandshakeState, Action))
        ensures
            step.0@ == session_read(self@, chain_view(chain), limit, event@).state,
            step.1 == session_read(self@, chain_view(chain), limit, event@).action,
            final(out)@ == old(out)@ + session_read(
                self@,
                chain_view(chain),
                limit,
                event@,
            ).delivered,
    {
        let mut sess = self;
        let waiting = sess.read_awaited(limit);
        proof {
            let _ = read_settle(sess@, chain_view(chain), limit);
            assert(out@ =~= out@ + Seq::<u8>::empty());
        }
        if sess.closing == Closing::Closed {
            return (
                HandshakeState::Established(sess, chain),
                Action::Failed(ErrorKind::EngineFailure(SEC_E_CONTEXT_EXPIRED)),
            );
        }
        match event {
            Event::Received(bytes) => {
                if waiting == Action::Receive {
                    if bytes.len() > 0 {
                        sess.buffers.extend_encrypted(bytes);
                        sess.needs_input = false;
                        sess.read_settle(chain, out, limit)
                    } else {
                        failure(ErrorKind::TransportFailure)
                    }
                } else {
                    sess.read_settle(chain, out, limit)
                }
            },
            Event::WouldBlock => {
                if waiting == Action::Receive {
                    (HandshakeState::Established(sess, chain), Action::Failed(ErrorKind::Interrupted))
                } else {
                    sess.read_settle(chain, out, limit)
                }
            },
            Event::TransportError => {
                if waiting == Action::Receive {
                    failure(ErrorKind::TransportFailure)
                } else {
                    sess.read_settle(chain, out, limit)
                }
            },
            Event::Decrypted { consumed, plaintext } => {
                if waiting == Action::Decrypt {
                    if consumed <= sess.buffers.encrypted().len() {
                        sess.needs_input = consumed == sess.buffers.encrypted().len();
                        sess.buffers.consume_encrypted(consumed);
                        sess.buffers.extend_decrypted(plaintext);
                        assert(sess@.buffers.decrypted =~= plaintext@);
                        sess.read_settle(chain, out, limit)
                    } else {
                        failure(ErrorKind::EngineFailure(SEC_E_INTERNAL_ERROR))
                    }
                } else {
                    sess.read_settle(chain, out, limit)
                }
            },
            Event::Incomplete => {
                if waiting == Action::Decrypt {
                    sess.needs_input = true;
                    (HandshakeState::Established(sess, chain), Action::Receive)
                } else {
                    sess.read_settle(chain, out, limit)
                }
            },
            Event::PeerClosed => {
                if waiting == Action::Decrypt {
                    sess.peer_closed = true;
                    (HandshakeState::Established(sess, chain), Action::Read(0))
                } else {
                    sess.read_settle(chain, out, limit)
                }
            },
            Event::Rejected(status) => {
                if waiting == Action::Decrypt {
                    failure(ErrorKind::from_status(status))
                } else {
                    sess.read_settle(chain, out, limit)
                }
            },
            _ => sess.read_settle(chain, out, limit),
        }
    }

    /// Where a shutdown stands while the close notification is going out.
    fn shutdown_settle(self, chain: Option<CertChainContext>) -> (step: (HandshakeState, Action))
        ensures
            (step.0@, step.1) == shutdown_settle(self@, chain_view(chain)),
    {
        let mut sess = self;
        if sess.outgoing.len() > 0 {
            (HandshakeState::Established(sess, chain), Action::Transmit)
        } else {
            sess.closing = Closing::Closed;
            (HandshakeState::Established(sess, chain), Action::Closed)
        }
    }

    /// One step of the orderly close.
    pub fn shutdown(self, chain: Option<CertChainContext>, event: Event) -> (step: (
        HandshakeState,
        Action,
    ))
        ensures
            (step.0@, step.1) == session_shutdown(self@, chain_view(chain), event@),
    {
        let mut sess = self;
        match sess.closing {
            Closing::Closed => (
                HandshakeState::Established(sess, chain),
                Action::Failed(ErrorKind::EngineFailure(SEC_E_CONTEXT_EXPIRED)),
            ),
            Closing::Open => match event {
                Event::Encrypted(record) => {
                    if record.len() > 0 {
                        append(&mut sess.outgoing, record);
                        sess.closing = Closing::Sending;
                        (HandshakeState::Established(sess, chain), Action::Transmit)
                    } else {
                        failure(ErrorKind::EngineFailure(SEC_E_INTERNAL_ERROR))
                    }
                },
                Event::Rejected(status) => failure(ErrorKind::from_status(status)),
                _ => (HandshakeState::Established(sess, chain), Action::CloseNotify),
            },
            Closing::Sending => {
                let transmitting = sess.outgoing.len() > 0;
                match event {
                    Event::Wrote(count) => {
                        if transmitting {
                            if 1 <= count && count <= sess.outgoing.len() {
                                let _ = drain_front(&mut sess.outgoing, count);
                                sess.shutdown_settle(chain)
                            } else {
                                failure(ErrorKind::TransportFailure)
                            }
                        } else {
                            sess.shutdown_settle(chain)
                        }
                    },
                    Event::WouldBlock => {
                        if transmitting {
                            (
                                HandshakeState::Established(sess, chain),
                                Action::Failed(ErrorKind::Interrupted),
                            )
                        } else {
                            sess.shutdown_settle(chain)
                        }
                    },
                    Event::TransportError => {
                        if transmitting {
                            failure(ErrorKind::TransportFailure)
                        } else {
                            sess.shutdown_settle(chain)
                        }
                    },
                    _ => sess.shutdown_settle(chain),
                }
            },
        }
    }
}

} // verus!
