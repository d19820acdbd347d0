//! Per-event decisions of the non-blocking receive and accept drain loops.
//!
//! The runtime's poller reports readiness; the owning loop then reads
//! datagrams one at a time into a reusable buffer of
//! [`crate::limits::INPUT_BUFFER_SIZE`] bytes until the queue is empty,
//! feeding each read's outcome to [`read_step`] (connected, outbound
//! endpoint) or [`accept_step`] (listening endpoint). Only the first `len`
//! bytes the operating system reported are ever exposed to the consumer;
//! the rest of the buffer is stale and must never be read.

use vstd::prelude::*;
use crate::addr::SocketAddrRep;

verus! {

/// What a drained read reports to the runtime when it finishes.
#[derive(Clone, Copy, Debug, PartialEq, Eq, Structural)]
pub enum ReadStatus {
    /// Nothing more is pending: wait for the next readiness event.
    WaitNextEvent,
}

/// What the operating system reported for one read on a connected socket.
#[derive(Clone, Copy, Debug, PartialEq, Eq, Structural)]
pub enum RecvOutcome {
    /// A datagram of `len` bytes (possibly zero) was delivered.
    Data { len: usize },
    /// Nothing is queued right now.
    WouldBlock,
    /// A peer-unreachable-class notification (ICMP-derived) surfaced.
    Unreachable,
    /// Any other error.
    Failed,
}

/// What the receive drain loop does next after one read.
#[derive(Clone, Copy, Debug, PartialEq, Eq, Structural)]
pub enum ReadDecision {
    /// Hand the first `len` bytes of the buffer to the consumer, then read
    /// again.
    Deliver { len: usize },
    /// Stop draining and report [`ReadStatus::WaitNextEvent`]; the error, if
    /// any, should first be logged at error severity.
    Finish { log_error: bool },
}

/// The receive drain policy: delivered data continues the drain; an empty
/// queue and an unreachable-peer notification end it silently (both are
/// expected, frequent conditions of a connectionless transport); any other
/// error ends it too, after being logged — the drain never aborts the
/// endpoint, since the condition is transient or non-fatal for a
/// connectionless stream.
pub open spec fn read_step_spec(outcome: RecvOutcome) -> ReadDecision {
    match outcome {
        RecvOutcome::Data { len } => ReadDecision::Deliver { len },
        RecvOutcome::WouldBlock => ReadDecision::Finish { log_error: false },
        RecvOutcome::Unreachable => ReadDecision::Finish { log_error: false },
        RecvOutcome::Failed => ReadDecision::Finish { log_error: true },
    }
}

/// Decides what the receive drain loop of an outbound endpoint does after
/// one read.
pub fn read_step(outcome: &RecvOutcome) -> (r: ReadDecision)
    ensures
        r == read_step_spec(*outcome),
{
    match outcome {
        RecvOutcome::Data { len } => ReadDecision::Deliver { len: *len },
        RecvOutcome::WouldBlock => ReadDecision::Finish { log_error: false },
        RecvOutcome::Unreachable => ReadDecision::Finish { log_error: false },
        RecvOutcome::Failed => ReadDecision::Finish { log_error: true },
    }
}

/// What the operating system reported for one read on a listening socket.
#[derive(Clone, Copy, Debug, PartialEq, Eq, Structural)]
pub enum AcceptOutcome {
    /// A datagram of `len` bytes (possibly zero) arrived from `sender`.
    Data { sender: SocketAddrRep, len: usize },
    /// Nothing is queued right now.
    WouldBlock,
    /// Any other error.
    Failed,
}

/// What the accept drain loop does next after one read.
#[derive(Clone, Copy, Debug, PartialEq, Eq, Structural)]
pub enum AcceptDecision {
    /// Hand the sender's address and the first `len` bytes of the buffer to
    /// the consumer, then read again.
    Deliver { sender: SocketAddrRep, len: usize },
    /// Stop draining; the error, if any, should first be logged at error
    /// severity.
    Finish { log_error: bool },
}

/// The accept drain policy: delivered data continues the drain with the
/// sender's address passed through unchanged; an empty queue ends it
/// silently (the expected steady state); any other error ends it too, after
/// being logged — a future readiness event will retry.
pub open spec fn accept_step_spec(outcome: AcceptOutcome) -> AcceptDecision {
    match outcome {
        AcceptOutcome::Data { sender, len } => AcceptDecision::Deliver { sender, len },
        AcceptOutcome::WouldBlock => AcceptDecision::Finish { log_error: false },
        AcceptOutcome::Failed => AcceptDecision::Finish { log_error: true },
    }
}

/// Decides what the accept drain loop of a listening endpoint does after
/// one read.
pub fn accept_step(outcome: &AcceptOutcome) -> (r: AcceptDecision)
    ensures
        r == accept_step_spec(*outcome),
{
    match outcome {
        AcceptOutcome::Data { sender, len } => AcceptDecision::Deliver {
            sender: *sender,
            len: *len,
        },
        AcceptOutcome::WouldBlock => AcceptDecision::Finish { log_error: false },
        AcceptOutcome::Failed => AcceptDecision::Finish { log_error: true },
    }
}

/// The bytes a drain loop hands its consumer for one delivered datagram:
/// exactly the first `len` bytes of the reusable buffer, the ones the
/// operating system reported as filled. The rest of the buffer is stale
/// data from earlier iterations and is never exposed.
pub fn delivered_bytes<'a>(buffer: &'a [u8], len: usize) -> (r: &'a [u8])
    requires
        len <= buffer@.len(),
    ensures
        r@ == buffer@.subrange(0, len as int),
        r@.len() == len,
{
    vstd::slice::slice_subrange(buffer, 0, len)
}

/// How many datagrams a receive drain delivers to its consumer when the
/// socket reports the outcomes in `outcomes`, in order: one per leading
/// data outcome, none from the first terminal outcome on.
pub open spec fn drain_deliveries(outcomes: Seq<RecvOutcome>) -> nat
    decreases outcomes.len(),
{
    if outcomes.len() == 0 {
        0
    } else {
        match outcomes[0] {
            RecvOutcome::Data { .. } => 1 + drain_deliveries(outcomes.drop_first()),
            _ => 0,
        }
    }
}

/// A receive drain on an empty queue is idempotent: whenever the first read
/// reports an empty queue, the drain invokes its consumer zero times and
/// returns at once with "wait for the next event", without logging — so
/// repeated drains of an empty socket each return immediately with no
/// callback invocations.
pub proof fn lemma_empty_drain_no_deliveries(outcomes: Seq<RecvOutcome>)
    requires
        outcomes.len() > 0,
        outcomes[0] == RecvOutcome::WouldBlock,
    ensures
        drain_deliveries(outcomes) == 0,
        (read_step_spec(outcomes[0]) == ReadDecision::Finish { log_error: false }),
{
}

/// An accept drain on an empty queue is idempotent: an empty-queue outcome
/// ends the drain at once, silently and with no delivery, so repeated
/// accept calls with nothing pending invoke the consumer zero times.
pub proof fn lemma_empty_accept_no_deliveries(outcome: AcceptOutcome)
    requires
        outcome == AcceptOutcome::WouldBlock,
    ensures
        (accept_step_spec(outcome) == AcceptDecision::Finish { log_error: false }),
        (!(accept_step_spec(outcome) is Deliver)),
{
}

/// An unreachable-peer notification observed while receiving is benign: the
/// drain delivers nothing from it, does not log it, and reports only "wait
/// for the next event" — while the send classification reports the same
/// condition as a terminal [`crate::send::SendStatus::ResourceNotFound`],
/// never a crash.
pub proof fn lemma_unreachable_benign(len: usize)
    ensures
        (read_step_spec(RecvOutcome::Unreachable) == ReadDecision::Finish { log_error: false }),
        crate::send::send_step_spec(len, crate::send::SendOutcome::Unreachable)
            == crate::send::SendStatus::ResourceNotFound,
{
}

} // verus!
