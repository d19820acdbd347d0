//! Shared packet-transmission policy: size pre-check and failure
//! classification for writing one datagram, used by both endpoint kinds.
//!
//! The socket write itself is a non-blocking operation performed by the
//! caller's environment; its result reaches this module as a [`SendOutcome`],
//! the plain classification of what the operating system reported.
//!
//! A write that finds the local send buffer full is not retried in a tight
//! loop here: busy-spinning could peg the calling context for as long as the
//! buffer stays full. It is surfaced as [`SendStatus::RetryLater`] so the
//! external poller can re-invoke the send on the next writable-readiness
//! event, which preserves the non-blocking contract under all conditions.

use vstd::prelude::*;
use crate::limits::{MAX_COMPATIBLE_PAYLOAD_LEN, MAX_PAYLOAD_LEN, oversize_limit, oversize_limit_spec};

verus! {

/// Status of a datagram send, as reported to the runtime.
#[derive(Clone, Copy, Debug, PartialEq, Eq, Structural)]
pub enum SendStatus {
    /// The datagram was handed to the operating system for delivery.
    Sent,
    /// The destination is currently unreachable or unusable.
    ResourceNotFound,
    /// The payload was too large: carries the offending length and the size
    /// ceiling appropriate to it.
    MaxPacketSizeExceeded(usize, usize),
    /// The local send buffer is momentarily full: re-invoke the send on the
    /// next writable-readiness event.
    RetryLater,
}

/// What the operating system reported for one attempt to write a datagram.
#[derive(Clone, Copy, Debug, PartialEq, Eq, Structural)]
pub enum SendOutcome {
    /// The write was accepted.
    Accepted,
    /// A peer-unreachable-class notification (ICMP-derived) surfaced.
    Unreachable,
    /// The local send buffer is momentarily full.
    WouldBlock,
    /// The platform refused the datagram as too large.
    TooLarge,
    /// Any other error.
    Failed,
}

/// The classification policy for one write attempt on a payload of `len`
/// bytes: success and unreachable-peer are terminal, a full send buffer asks
/// for a retry on the next writable event, an oversized payload reports the
/// platform-appropriate ceiling, and every other failure marks the
/// destination unusable.
pub open spec fn send_step_spec(len: usize, outcome: SendOutcome) -> SendStatus {
    match outcome {
        SendOutcome::Accepted => SendStatus::Sent,
        SendOutcome::Unreachable => SendStatus::ResourceNotFound,
        SendOutcome::WouldBlock => SendStatus::RetryLater,
        SendOutcome::TooLarge => SendStatus::MaxPacketSizeExceeded(len, oversize_limit_spec(len)),
        SendOutcome::Failed => SendStatus::ResourceNotFound,
    }
}

/// Classifies the outcome of one write attempt for a payload of `len` bytes.
///
/// An unexpected failure (`SendOutcome::Failed`) should be logged by the
/// caller at error severity; every other outcome is an expected condition of
/// a connectionless transport and is not logged.
pub fn classify_send(len: usize, outcome: &SendOutcome) -> (r: SendStatus)
    ensures
        r == send_step_spec(len, *outcome),
{
    match outcome {
        SendOutcome::Accepted => SendStatus::Sent,
        SendOutcome::Unreachable => SendStatus::ResourceNotFound,
        SendOutcome::WouldBlock => SendStatus::RetryLater,
        SendOutcome::TooLarge => SendStatus::MaxPacketSizeExceeded(len, oversize_limit(len)),
        SendOutcome::Failed => SendStatus::ResourceNotFound,
    }
}

/// Sends one datagram through `send_method`, which abstracts "send on a
/// connected socket" from "send-to on an unbound socket" so both endpoint
/// kinds share one classification policy.
///
/// A payload over the hard protocol maximum is rejected up front and no
/// delivery is attempted. Otherwise one write is attempted and its outcome
/// is classified by [`classify_send`].
pub fn send_packet<F: Fn(&[u8]) -> SendOutcome>(data: &[u8], send_method: F) -> (r: SendStatus)
    requires
        call_requires(send_method, (data,)),
    ensures
        data@.len() > MAX_PAYLOAD_LEN ==> r == SendStatus::MaxPacketSizeExceeded(
            data@.len() as usize,
            MAX_PAYLOAD_LEN,
        ),
        data@.len() <= MAX_PAYLOAD_LEN ==> exists|outcome: SendOutcome|
            call_ensures(send_method, (data,), outcome) && r == send_step_spec(
                data@.len() as usize,
                outcome,
            ),
{
    let len: usize = data.len();
    if len > MAX_PAYLOAD_LEN {
        return SendStatus::MaxPacketSizeExceeded(len, MAX_PAYLOAD_LEN);
    }
    let outcome = send_method(data);
    let status = classify_send(len, &outcome);
    proof {
        assert(call_ensures(send_method, (data,), outcome) && status == send_step_spec(
            len,
            outcome,
        ));
    }
    status
}

/// For a payload between the conservative cross-platform ceiling (exclusive)
/// and the hard protocol maximum (inclusive), a platform that can address
/// the destination either accepts the write or refuses it as too large; the
/// classification then reports either a successful send or an oversize
/// failure carrying the conservative ceiling — never anything else, and
/// never a silent drop.
pub proof fn lemma_midrange_send_sent_or_capped(len: usize, outcome: SendOutcome)
    requires
        MAX_COMPATIBLE_PAYLOAD_LEN < len <= MAX_PAYLOAD_LEN,
        outcome == SendOutcome::Accepted || outcome == SendOutcome::TooLarge,
    ensures
        send_step_spec(len, outcome) == SendStatus::Sent || send_step_spec(len, outcome)
            == SendStatus::MaxPacketSizeExceeded(len, MAX_COMPATIBLE_PAYLOAD_LEN),
{
}

} // verus!
