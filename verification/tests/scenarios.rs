//! Scenario tests: each drives the adapter core through the sequence of
//! outcomes the operating system would report during one episode, and
//! checks every decision along the way.

use std::cell::Cell;

use udp_adapter::limits::INPUT_BUFFER_SIZE;
use udp_adapter::recv::{delivered_bytes, read_step, ReadDecision, ReadStatus, RecvOutcome};
use udp_adapter::send::{send_packet, SendOutcome, SendStatus};

/// Runs one receive drain over scripted outcomes, collecting what a
/// consumer would see, and returns (deliveries, status, logged).
fn drain(buffer: &[u8], outcomes: &[RecvOutcome]) -> (Vec<Vec<u8>>, ReadStatus, bool) {
    let mut deliveries: Vec<Vec<u8>> = Vec::new();
    let mut next: usize = 0;
    loop {
        let outcome = outcomes[next];
        next += 1;
        match read_step(&outcome) {
            ReadDecision::Deliver { len } => {
                assert!(len <= buffer.len());
                deliveries.push(delivered_bytes(buffer, len).to_vec());
            }
            ReadDecision::Finish { log_error } => {
                break (deliveries, ReadStatus::WaitNextEvent, log_error);
            }
        }
    }
}

#[test]
fn round_trip_drain_delivers_exact_bytes() {
    // One 5-byte datagram is queued, then the queue is empty: the consumer
    // sees exactly the five bytes the kernel filled, never the stale rest
    // of the reusable buffer.
    let mut buffer = vec![0xEEu8; INPUT_BUFFER_SIZE];
    buffer[..5].copy_from_slice(b"hello");
    let (deliveries, status, logged) = drain(
        &buffer,
        &[RecvOutcome::Data { len: 5 }, RecvOutcome::WouldBlock],
    );
    assert_eq!(deliveries, vec![b"hello".to_vec()]);
    assert_eq!(status, ReadStatus::WaitNextEvent);
    assert!(!logged);
}

#[test]
fn drain_delivers_zero_length_datagram() {
    let buffer = vec![0xEEu8; INPUT_BUFFER_SIZE];
    let (deliveries, status, logged) = drain(
        &buffer,
        &[RecvOutcome::Data { len: 0 }, RecvOutcome::WouldBlock],
    );
    assert_eq!(deliveries, vec![Vec::<u8>::new()]);
    assert_eq!(status, ReadStatus::WaitNextEvent);
    assert!(!logged);
}

#[test]
fn repeated_empty_drains_invoke_no_callback() {
    let buffer = vec![0u8; INPUT_BUFFER_SIZE];
    for _ in 0..3 {
        let (deliveries, status, logged) = drain(&buffer, &[RecvOutcome::WouldBlock]);
        assert!(deliveries.is_empty());
        assert_eq!(status, ReadStatus::WaitNextEvent);
        assert!(!logged);
    }
}

#[test]
fn unexpected_receive_error_stops_drain_after_logging() {
    let buffer = vec![0u8; INPUT_BUFFER_SIZE];
    let (deliveries, status, logged) = drain(&buffer, &[RecvOutcome::Failed]);
    assert!(deliveries.is_empty());
    assert_eq!(status, ReadStatus::WaitNextEvent);
    assert!(logged);
}

#[test]
fn closed_port_episode_is_benign() {
    // Sending to a closed port: the first send is accepted (buffered
    // locally), a later drain observes the unreachable notification and
    // returns "wait for the next event" with zero callback invocations and
    // no logging, and a subsequent send reports ResourceNotFound — the
    // endpoint never aborts.
    let payload = b"ping";

    let first = send_packet(payload, |_d: &[u8]| SendOutcome::Accepted);
    assert_eq!(first, SendStatus::Sent);

    let buffer = vec![0u8; INPUT_BUFFER_SIZE];
    let (deliveries, status, logged) = drain(&buffer, &[RecvOutcome::Unreachable]);
    assert!(deliveries.is_empty());
    assert_eq!(status, ReadStatus::WaitNextEvent);
    assert!(!logged);

    let second = send_packet(payload, |_d: &[u8]| SendOutcome::Unreachable);
    assert_eq!(second, SendStatus::ResourceNotFound);
}

#[test]
fn full_send_buffer_surfaces_retry_later() {
    // A full local send buffer is not spun on: the caller is told to retry
    // on the next writable-readiness event, and the retry succeeds.
    let payload = b"data";
    let first = send_packet(payload, |_d: &[u8]| SendOutcome::WouldBlock);
    assert_eq!(first, SendStatus::RetryLater);
    let retry = send_packet(payload, |_d: &[u8]| SendOutcome::Accepted);
    assert_eq!(retry, SendStatus::Sent);
}

#[test]
fn send_attempts_one_write_per_call() {
    let calls = Cell::new(0usize);
    let payload = vec![9u8; 9188];
    let status = send_packet(&payload, |_d: &[u8]| {
        calls.set(calls.get() + 1);
        SendOutcome::Accepted
    });
    assert_eq!(status, SendStatus::Sent);
    assert_eq!(calls.get(), 1);

    let oversized = vec![9u8; 65508];
    let calls_oversized = Cell::new(0usize);
    let status = send_packet(&oversized, |_d: &[u8]| {
        calls_oversized.set(calls_oversized.get() + 1);
        SendOutcome::Accepted
    });
    assert_eq!(status, SendStatus::MaxPacketSizeExceeded(65508, 65507));
    assert_eq!(calls_oversized.get(), 0);
}
