//! What holds of every run of a session, whatever the driver reports.

use crate::error::ErrorKind;
use crate::event::{Action, EventView};
use crate::model::{
    accepted, expired, handshake_step, initiate_step, read_step, shutdown_step, write_step,
    Closing, StateView,
};
use crate::tls_stream::{peer_chain_of, pending_input_of, pending_output_of};
use vstd::prelude::*;

verus! {

/// An operation on a session.
pub enum Operation {
    /// A step of the handshake.
    Handshake,
    /// A step of a write of a payload of this many bytes.
    Write(usize),
    /// A step of a read that takes up to this many bytes.
    Read(usize),
    /// A step of the orderly close.
    Shutdown,
}

/// One step of an operation.
pub open spec fn step_of(s: StateView, op: Operation, e: EventView) -> (StateView, Action) {
    match op {
        Operation::Handshake => handshake_step(s, e),
        Operation::Write(len) => write_step(s, len, e),
        Operation::Read(limit) => (read_step(s, limit, e).state, read_step(s, limit, e).action),
        Operation::Shutdown => shutdown_step(s, e),
    }
}

/// What an operation is waiting for in a state: the action it answers with
/// when nothing new is reported.
pub open spec fn awaited_of(s: StateView, op: Operation) -> Action {
    step_of(s, op, EventView::Resume).1
}

/// The bytes that the transport accepts in a step: the front of the pending
/// output, if the operation was waiting to transmit and the transport
/// reports a count that it can have accepted.
pub open spec fn sent_in(s: StateView, op: Operation, e: EventView) -> Seq<u8> {
    match e {
        EventView::Wrote(count) => if awaited_of(s, op) == Action::Transmit && accepted(
            count,
            pending_output_of(s),
        ) {
            pending_output_of(s).take(count as int)
        } else {
            Seq::empty()
        },
        _ => Seq::empty(),
    }
}

/// The bytes that the engine hands over for the transport in a step: the
/// output of a round of negotiation, the records of a payload, or the close
/// notification, if the operation was waiting for them.
pub open spec fn queued_in(s: StateView, op: Operation, e: EventView) -> Seq<u8> {
    match e {
        EventView::Token { consumed, output } => if awaited_of(s, op) == Action::Negotiate
            && consumed <= pending_input_of(s).len() {
            output
        } else {
            Seq::empty()
        },
        EventView::Negotiated { consumed, output, max_message } => if awaited_of(s, op)
            == Action::Negotiate && consumed <= pending_input_of(s).len() {
            output
        } else {
            Seq::empty()
        },
        EventView::Encrypted(records) => if awaited_of(s, op) is Encrypt || awaited_of(s, op)
            == Action::CloseNotify {
            records
        } else {
            Seq::empty()
        },
        _ => Seq::empty(),
    }
}

/// A failed session stays as it is: every operation, whatever the event and
/// the payload, answers with the stored failure, leaves the state unchanged,
/// delivers nothing and asks for no transport I/O.
pub proof fn lemma_failure_is_terminal(
    kind: ErrorKind,
    permanent: bool,
    op: Operation,
    e: EventView,
)
    ensures
        step_of(StateView::Failed(kind, permanent), op, e) == (
            StateView::Failed(kind, permanent),
            Action::Failed(kind),
        ),
        !step_of(StateView::Failed(kind, permanent), op, e).1.spec_is_transport(),
        sent_in(StateView::Failed(kind, permanent), op, e) == Seq::<u8>::empty(),
        queued_in(StateView::Failed(kind, permanent), op, e) == Seq::<u8>::empty(),
        op matches Operation::Read(limit) ==> read_step(
            StateView::Failed(kind, permanent),
            limit,
            e,
        ).delivered == Seq::<u8>::empty(),
{
}

/// Once a session has failed, two writes in a row, with any payloads and
/// any events, both answer with the same stored kind, and no byte reaches
/// the transport on either.
pub proof fn lemma_failure_is_permanent(
    kind: ErrorKind,
    permanent: bool,
    first_len: usize,
    first: EventView,
    second_len: usize,
    second: EventView,
)
    ensures
        ({
            let s = StateView::Failed(kind, permanent);
            let one = write_step(s, first_len, first);
            let two = write_step(one.0, second_len, second);
            &&& one.1 == Action::Failed(kind)
            &&& two.1 == Action::Failed(kind)
            &&& one.0 == s
            &&& two.0 == s
            &&& sent_in(s, Operation::Write(first_len), first) == Seq::<u8>::empty()
            &&& sent_in(one.0, Operation::Write(second_len), second) == Seq::<u8>::empty()
        }),
{
}

/// A failure that a step produces is stored with its kind and reported as
/// the result of that step; the flag says whether the kind is one that no
/// transport could mend.
pub proof fn lemma_failure_is_stored(s: StateView, op: Operation, e: EventView)
    requires
        !(s is Failed),
        step_of(s, op, e).0 is Failed,
    ensures
        ({
            let next = step_of(s, op, e);
            &&& next.0 matches StateView::Failed(kind, permanent)
            &&& next.1 == Action::Failed(kind)
            &&& permanent == kind.spec_is_permanent()
            &&& kind != ErrorKind::Interrupted
        }),
{
}

/// An interruption is never stored: the step that reports it leaves the
/// state exactly as it was, so the same operation can be entered again.
pub proof fn lemma_interruption_keeps_state(s: StateView, op: Operation, e: EventView)
    requires
        step_of(s, op, e).1 == Action::Failed(ErrorKind::Interrupted),
    ensures
        step_of(s, op, e).0 == s,
        sent_in(s, op, e) == Seq::<u8>::empty(),
        queued_in(s, op, e) == Seq::<u8>::empty(),
{
}

/// The transport not being ready never fails a session: the step either
/// reports an interruption or, where the operation was not waiting for the
/// transport, goes on as if nothing had been reported.
pub proof fn lemma_would_block_is_resumable(s: StateView, op: Operation)
    ensures
        step_of(s, op, EventView::WouldBlock).1 == Action::Failed(ErrorKind::Interrupted)
            || step_of(s, op, EventView::WouldBlock) == step_of(s, op, EventView::Resume),
        !(s is Failed) ==> !(step_of(s, op, EventView::WouldBlock).0 is Failed),
{
}

/// A session whose peer is to be verified becomes established only when the
/// verification has succeeded, and then owns the verified chain. A failed
/// verification fails the session for good with the kind of its status,
/// although the negotiation itself had succeeded.
pub proof fn lemma_untrusted_peer_is_failure(s: StateView, e: EventView)
    requires
        s matches StateView::InProgress(n) && n.verify_peer,
    ensures
        handshake_step(s, e).0 is Established ==> (e matches EventView::Verified(chain)
            && peer_chain_of(handshake_step(s, e).0) == Some(chain) && awaited_of(
            s,
            Operation::Handshake,
        ) == Action::Verify),
        (awaited_of(s, Operation::Handshake) == Action::Verify && e
            is VerificationFailed) ==> handshake_step(s, e) == (
            StateView::Failed(ErrorKind::spec_from_status(e->VerificationFailed_0 as int), true),
            Action::Failed(ErrorKind::spec_from_status(e->VerificationFailed_0 as int)),
        ),
{
}

/// A session is started only once, and a credential that cannot serve the
/// target fails it with an algorithm mismatch before any action is asked
/// for.
pub proof fn lemma_unsupported_combination_fails_at_once(verify_peer: bool)
    ensures
        initiate_step(StateView::NotStarted, false, verify_peer) == (
            StateView::Failed(ErrorKind::AlgorithmMismatch, true),
            Action::Failed(ErrorKind::AlgorithmMismatch),
        ),
        initiate_step(StateView::NotStarted, true, verify_peer).0 is InProgress,
        initiate_step(StateView::NotStarted, true, verify_peer).1 == Action::Negotiate,
{
}

/// The engine's refusal during the negotiation fails the session for good
/// with the kind of its status: never with a transport failure.
pub proof fn lemma_rejection_keeps_its_kind(s: StateView, status: i32)
    requires
        s is InProgress,
        awaited_of(s, Operation::Handshake) == Action::Negotiate,
    ensures
        handshake_step(s, EventView::Rejected(status)) == (
            StateView::Failed(ErrorKind::spec_from_status(status as int), true),
            Action::Failed(ErrorKind::spec_from_status(status as int)),
        ),
        ErrorKind::spec_from_status(status as int) != ErrorKind::TransportFailure,
{
}

/// Nothing is lost, repeated or reordered on the way to the transport: in
/// every step that does not fail the session, what was pending followed by
/// what the engine handed over is what the transport accepted followed by
/// what is pending afterwards. A transport that accepts part of the output
/// is next given the rest, from the first byte it did not accept.
pub proof fn lemma_output_is_conserved(s: StateView, op: Operation, e: EventView)
    requires
        !(step_of(s, op, e).0 is Failed),
    ensures
        pending_output_of(s) + queued_in(s, op, e) == sent_in(s, op, e) + pending_output_of(
            step_of(s, op, e).0,
        ),
{
    let next = step_of(s, op, e).0;
    assert(pending_output_of(s) + queued_in(s, op, e) =~= sent_in(s, op, e) + pending_output_of(
        next,
    ));
}

/// A write ends only when the transport has accepted every pending record,
/// and reports the number of payload bytes that those records were made
/// from. The engine is asked for no more than one record's worth of the
/// payload.
pub proof fn lemma_write_reports_what_went_out(s: StateView, len: usize, e: EventView)
    requires
        s is Established,
    ensures
        write_step(s, len, e).1 matches Action::Written(count) ==> {
            &&& s matches StateView::Established(sess, _)
            &&& count == sess.enveloped
            &&& pending_output_of(write_step(s, len, e).0) == Seq::<u8>::empty()
            &&& sent_in(s, Operation::Write(len), e) == sess.outgoing
            &&& sess.outgoing.len() > 0
        },
        write_step(s, len, e).1 matches Action::Encrypt(count) ==> {
            &&& s matches StateView::Established(sess, _)
            &&& count <= len
            &&& count <= sess.max_message
            &&& (count == len || count == sess.max_message)
        },
{
}

/// On an open session with nothing pending, a write goes through in three
/// steps if the transport takes the records at once: the engine is asked for
/// one record's worth of the payload, the records are handed to the
/// transport, and the write ends with the number of payload bytes in them.
pub proof fn lemma_write_in_one_go(s: StateView, len: usize, records: Seq<u8>)
    requires
        s matches StateView::Established(sess, _) && sess.closing == Closing::Open
            && sess.outgoing.len() == 0,
        0 < records.len() <= usize::MAX,
    ensures
        ({
            let portion = if s->Established_0.max_message < len {
                s->Established_0.max_message
            } else {
                len
            };
            let asked = write_step(s, len, EventView::Resume);
            let queued = write_step(asked.0, len, EventView::Encrypted(records));
            let done = write_step(queued.0, len, EventView::Wrote(records.len() as usize));
            &&& asked == (s, Action::Encrypt(portion))
            &&& queued.1 == Action::Transmit
            &&& pending_output_of(queued.0) == records
            &&& done.1 == Action::Written(portion)
            &&& pending_output_of(done.0) == Seq::<u8>::empty()
            &&& sent_in(queued.0, Operation::Write(len), EventView::Wrote(records.len() as usize))
                == records
        }),
{
    let asked = write_step(s, len, EventView::Resume);
    let queued = write_step(asked.0, len, EventView::Encrypted(records));
    assert(records.take(records.len() as int) =~= records);
}

/// A read delivers decrypted bytes in order and keeps what the caller does
/// not take: what is delivered is at most `limit` bytes, and is the front
/// of the decrypted bytes, whose rest stays buffered.
pub proof fn lemma_read_delivers_in_order(s: StateView, limit: usize, e: EventView)
    requires
        s matches StateView::Established(sess, _) && sess.buffers.decrypted.len() > 0
            && sess.closing != Closing::Closed,
    ensures
        ({
            let step = read_step(s, limit, e);
            &&& step.state matches StateView::Established(after, _)
            &&& s matches StateView::Established(sess, _)
            &&& step.delivered + after.buffers.decrypted == sess.buffers.decrypted
            &&& step.delivered.len() <= limit
            &&& step.action == Action::Read(step.delivered.len() as usize)
        }),
{
    let step = read_step(s, limit, e);
    assert(step.state matches StateView::Established(after, _) && s matches StateView::Established(
        sess,
        _,
    ) && step.delivered + after.buffers.decrypted =~= sess.buffers.decrypted);
}

/// A read that ends without bytes and without failure, for a caller that
/// takes bytes, means that the peer has closed the stream in an orderly way.
pub proof fn lemma_empty_read_is_orderly_close(s: StateView, limit: usize, e: EventView)
    requires
        limit > 0,
        read_step(s, limit, e).action == Action::Read(0),
    ensures
        read_step(s, limit, e).state matches StateView::Established(after, _) && after.peer_closed,
        read_step(s, limit, e).delivered == Seq::<u8>::empty(),
{
}

/// How far this side's orderly close has come in a state.
pub open spec fn closing_of(s: StateView) -> Option<Closing> {
    match s {
        StateView::Established(sess, _) => Some(sess.closing),
        _ => None,
    }
}

/// A shutdown ends only after the close notification has gone out: the step
/// that completes it leaves nothing pending, and the notification was
/// queued by an earlier step.
pub proof fn lemma_shutdown_completes_after_notification(s: StateView, e: EventView)
    requires
        shutdown_step(s, e).1 == Action::Closed,
    ensures
        closing_of(s) == Some(Closing::Sending),
        closing_of(shutdown_step(s, e).0) == Some(Closing::Closed),
        pending_output_of(shutdown_step(s, e).0) == Seq::<u8>::empty(),
        sent_in(s, Operation::Shutdown, e) == pending_output_of(s),
{
}

/// After the shutdown has completed, the session is closed for good: every
/// later shutdown, write or read answers that the session has expired,
/// changes nothing and asks for no transport I/O.
pub proof fn lemma_closed_is_closed(s: StateView, op: Operation, e: EventView)
    requires
        closing_of(s) == Some(Closing::Closed),
        !(op is Handshake),
    ensures
        step_of(s, op, e) == (s, Action::Failed(expired())),
        sent_in(s, op, e) == Seq::<u8>::empty(),
        queued_in(s, op, e) == Seq::<u8>::empty(),
{
}

/// The close never goes back: no step reopens a session that is closing or
/// closed.
pub proof fn lemma_closing_is_monotone(s: StateView, op: Operation, e: EventView)
    ensures
        closing_of(s) == Some(Closing::Closed) ==> closing_of(step_of(s, op, e).0) == Some(
            Closing::Closed,
        ),
        closing_of(s) == Some(Closing::Sending) ==> closing_of(step_of(s, op, e).0)
            != Some(Closing::Open),
{
}

/// What a run of shutdown steps comes to.
pub struct ShutdownRun {
    /// The state after the last step.
    pub state: StateView,
    /// The bytes that the transport accepted, in order.
    pub sent: Seq<u8>,
    /// The close notifications that the engine handed over, in order.
    pub queued: Seq<u8>,
    /// How many steps completed the shutdown.
    pub completions: nat,
}

/// The run of shutdown steps that a sequence of events drives.
pub open spec fn shutdown_run(s: StateView, events: Seq<EventView>) -> ShutdownRun
    decreases events.len(),
{
    if events.len() == 0 {
        ShutdownRun { state: s, sent: Seq::empty(), queued: Seq::empty(), completions: 0 }
    } else {
        let step = shutdown_step(s, events.first());
        let rest = shutdown_run(step.0, events.drop_first());
        ShutdownRun {
            state: rest.state,
            sent: sent_in(s, Operation::Shutdown, events.first()) + rest.sent,
            queued: queued_in(s, Operation::Shutdown, events.first()) + rest.queued,
            completions: if step.1 == Action::Closed {
                rest.completions + 1
            } else {
                rest.completions
            },
        }
    }
}

/// Whatever the driver reports, a shutdown completes at most once. If it
/// completes on a session that was open, the transport has by then accepted
/// everything that was pending followed by the whole close notification,
/// which is not empty; on a session that was already sending its
/// notification, everything that was pending.
pub proof fn lemma_shutdown_once(s: StateView, events: Seq<EventView>)
    ensures
        shutdown_run(s, events).completions <= 1,
        shutdown_run(s, events).completions == 1 ==> {
            &&& closing_of(s) == Some(Closing::Open) || closing_of(s) == Some(Closing::Sending)
            &&& closing_of(shutdown_run(s, events).state) == Some(Closing::Closed)
            &&& shutdown_run(s, events).sent == pending_output_of(s) + shutdown_run(
                s,
                events,
            ).queued
            &&& closing_of(s) == Some(Closing::Open) ==> shutdown_run(s, events).queued.len() > 0
        },
        !(closing_of(s) == Some(Closing::Open)) ==> shutdown_run(s, events).queued == Seq::<
            u8,
        >::empty(),
        shutdown_run(s, events).completions == 0 && !(shutdown_run(s, events).state is Failed)
            ==> pending_output_of(s) + shutdown_run(s, events).queued == shutdown_run(
            s,
            events,
        ).sent + pending_output_of(shutdown_run(s, events).state),
        closing_of(s) != Some(Closing::Open) && closing_of(s) != Some(Closing::Sending)
            ==> shutdown_run(s, events).completions == 0 && shutdown_run(s, events).sent == Seq::<
            u8,
        >::empty(),
    decreases events.len(),
{
    if events.len() == 0 {
        assert(pending_output_of(s) + Seq::<u8>::empty() =~= Seq::<u8>::empty()
            + pending_output_of(s));
    } else {
        let e = events.first();
        let step = shutdown_step(s, e);
        let rest = shutdown_run(step.0, events.drop_first());
        let run = shutdown_run(s, events);
        let sent = sent_in(s, Operation::Shutdown, e);
        let queued = queued_in(s, Operation::Shutdown, e);
        lemma_shutdown_once(step.0, events.drop_first());
        if step.0 is Failed {
            lemma_failed_run(step.0, events.drop_first());
        } else {
            lemma_output_is_conserved(s, Operation::Shutdown, e);
        }
        if step.1 == Action::Closed {
            lemma_closed_run(step.0, events.drop_first());
            assert(queued =~= Seq::<u8>::empty());
            assert(run.sent =~= pending_output_of(s) + run.queued);
        } else if run.completions == 1 {
            assert(run.sent =~= pending_output_of(s) + run.queued) by {
                assert(sent + (pending_output_of(step.0) + rest.queued) =~= (sent
                    + pending_output_of(step.0)) + rest.queued);
                assert((pending_output_of(s) + queued) + rest.queued =~= pending_output_of(s) + (
                queued + rest.queued));
            }
        }
        if run.completions == 0 && !(run.state is Failed) {
            assert(pending_output_of(s) + run.queued =~= run.sent + pending_output_of(run.state))
                by {
                assert(pending_output_of(s) + (queued + rest.queued) =~= (pending_output_of(s)
                    + queued) + rest.queued);
                assert((sent + pending_output_of(step.0)) + rest.queued =~= sent + (
                pending_output_of(step.0) + rest.queued));
                assert(sent + (rest.sent + pending_output_of(rest.state)) =~= (sent + rest.sent)
                    + pending_output_of(rest.state));
            }
        }
        if closing_of(s) != Some(Closing::Open) {
            assert(run.queued =~= Seq::<u8>::empty());
        }
        if closing_of(s) != Some(Closing::Open) && closing_of(s) != Some(Closing::Sending) {
            assert(run.sent =~= Seq::<u8>::empty());
        }
    }
}

/// A run from a closed session ends in that session: nothing is sent, and
/// no step completes a shutdown again.
pub proof fn lemma_closed_run(s: StateView, events: Seq<EventView>)
    requires
        closing_of(s) == Some(Closing::Closed),
    ensures
        shutdown_run(s, events).state == s,
        shutdown_run(s, events).completions == 0,
        shutdown_run(s, events).sent == Seq::<u8>::empty(),
        shutdown_run(s, events).queued == Seq::<u8>::empty(),
    decreases events.len(),
{
    if events.len() > 0 {
        lemma_closed_run(s, events.drop_first());
        assert(shutdown_run(s, events).sent =~= Seq::<u8>::empty());
        assert(shutdown_run(s, events).queued =~= Seq::<u8>::empty());
    }
}

/// A run from a failed session ends in that failed session.
pub proof fn lemma_failed_run(s: StateView, events: Seq<EventView>)
    requires
        s is Failed,
    ensures
        shutdown_run(s, events).state == s,
        shutdown_run(s, events).completions == 0,
    decreases events.len(),
{
    if events.len() > 0 {
        lemma_failed_run(s, events.drop_first());
    }
}

} // verus!
