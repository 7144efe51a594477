//! What a session asks its driver to do, and what the driver reports back.
//!
//! The session never touches the transport or the security engine itself.
//! Each step answers with an [`Action`]; the driver performs it and feeds the
//! outcome into the next step as an [`Event`].

use crate::cert_chain::CertChainContext;
use crate::error::ErrorKind;
use vstd::prelude::*;

verus! {

/// What the driver is to do next, or how the operation ended.
#[derive(Clone, Copy, Debug, PartialEq, Eq, Structural)]
pub enum Action {
    /// Start the session: it has no credential yet.
    Initiate,
    /// Write the pending output to the transport, from its first byte.
    Transmit,
    /// Read whatever the transport has.
    Receive,
    /// Run a round of negotiation over the pending input.
    Negotiate,
    /// Build the peer's certificate chain and verify it.
    Verify,
    /// Decrypt the pending input.
    Decrypt,
    /// Encrypt this many bytes from the front of the caller's payload.
    Encrypt(usize),
    /// Produce the record that notifies the peer of an orderly close.
    CloseNotify,
    /// The handshake is complete.
    Established,
    /// The write is complete: this many bytes of the payload were encrypted
    /// and accepted by the transport.
    Written(usize),
    /// The read is complete: this many bytes were delivered. None means that
    /// the peer has closed the stream in an orderly way.
    Read(usize),
    /// The shutdown is complete.
    Closed,
    /// The operation ended with this condition.
    Failed(ErrorKind),
}

impl Action {
    /// Whether the action touches the transport.
    pub open spec fn spec_is_transport(self) -> bool {
        self == Action::Transmit || self == Action::Receive
    }

    /// Whether the action asks the driver for anything at all: if not, the
    /// operation has ended and the action is its result.
    pub open spec fn spec_is_final(self) -> bool {
        match self {
            Action::Established => true,
            Action::Written(_) => true,
            Action::Read(_) => true,
            Action::Closed => true,
            Action::Failed(_) => true,
            _ => false,
        }
    }

    /// See [`Action::spec_is_transport`].
    pub fn is_transport(&self) -> (b: bool)
        ensures
            b == self.spec_is_transport(),
    {
        match self {
            Action::Transmit => true,
            Action::Receive => true,
            _ => false,
        }
    }

    /// See [`Action::spec_is_final`].
    pub fn is_final(&self) -> (b: bool)
        ensures
            b == self.spec_is_final(),
    {
        match self {
            Action::Established => true,
            Action::Written(_) => true,
            Action::Read(_) => true,
            Action::Closed => true,
            Action::Failed(_) => true,
            _ => false,
        }
    }
}

/// What the driver reports: the outcome of the last action, or nothing new.
#[derive(Debug)]
pub enum Event {
    /// Nothing new: the operation is entered, or entered again after an
    /// interruption.
    Resume,
    /// The transport accepted this many bytes of the pending output.
    Wrote(usize),
    /// The transport delivered these bytes; none at the end of the stream.
    Received(Vec<u8>),
    /// The transport is not ready.
    WouldBlock,
    /// The transport failed.
    TransportError,
    /// A round of negotiation consumed `consumed` bytes of input, produced
    /// `output` for the peer, and wants another round.
    Token { consumed: usize, output: Vec<u8> },
    /// The last round of negotiation: as `Token`, and records of at most
    /// `max_message` payload bytes may be exchanged from now on.
    Negotiated { consumed: usize, output: Vec<u8>, max_message: usize },
    /// The engine needs more input before it can go on.
    Incomplete,
    /// The engine failed with this status.
    Rejected(i32),
    /// The peer's chain was built and verified.
    Verified(CertChainContext),
    /// Verification of the peer's chain failed with this status.
    VerificationFailed(i32),
    /// The engine consumed `consumed` bytes of input and decrypted them to
    /// `plaintext`.
    Decrypted { consumed: usize, plaintext: Vec<u8> },
    /// The engine found the peer's notification of an orderly close.
    PeerClosed,
    /// The engine produced these records.
    Encrypted(Vec<u8>),
}

/// An event by what it holds.
pub enum EventView {
    Resume,
    Wrote(usize),
    Received(Seq<u8>),
    WouldBlock,
    TransportError,
    Token { consumed: usize, output: Seq<u8> },
    Negotiated { consumed: usize, output: Seq<u8>, max_message: usize },
    Incomplete,
    Rejected(i32),
    Verified(Seq<Seq<Seq<u8>>>),
    VerificationFailed(i32),
    Decrypted { consumed: usize, plaintext: Seq<u8> },
    PeerClosed,
    Encrypted(Seq<u8>),
}

impl View for Event {
    type V = EventView;

    open spec fn view(&self) -> EventView {
        match *self {
            Event::Resume => EventView::Resume,
            Event::Wrote(n) => EventView::Wrote(n),
            Event::Received(bytes) => EventView::Received(bytes@),
            Event::WouldBlock => EventView::WouldBlock,
            Event::TransportError => EventView::TransportError,
            Event::Token { consumed, output } => EventView::Token { consumed, output: output@ },
            Event::Negotiated { consumed, output, max_message } => EventView::Negotiated {
                consumed,
                output: output@,
                max_message,
            },
            Event::Incomplete => EventView::Incomplete,
            Event::Rejected(status) => EventView::Rejected(status),
            Event::Verified(chain) => EventView::Verified(chain@),
            Event::VerificationFailed(status) => EventView::VerificationFailed(status),
            Event::Decrypted { consumed, plaintext } => EventView::Decrypted {
                consumed,
                plaintext: plaintext@,
            },
            Event::PeerClosed => EventView::PeerClosed,
            Event::Encrypted(bytes) => EventView::Encrypted(bytes@),
        }
    }
}

} // verus!
