//! Payload size limits of the datagram transport.

use vstd::prelude::*;

verus! {

/// Hard maximum payload a single datagram can carry: the 16-bit length space
/// minus the largest IP header (20 bytes) and the UDP header (8 bytes).
pub const MAX_PAYLOAD_LEN: usize = 65535 - 20 - 8;

/// Conservative cross-platform maximum payload: derived from the smallest
/// default MTU among common desktop operating systems (9216 bytes), minus the
/// same IP and UDP header overhead.
pub const MAX_COMPATIBLE_PAYLOAD_LEN: usize = 9216 - 20 - 8;

/// Size of the reusable receive buffer: large enough for any datagram the
/// transport can deliver.
pub const INPUT_BUFFER_SIZE: usize = 65535;

/// The size ceiling reported with an oversized-payload failure: the hard
/// protocol maximum if the payload already exceeds it, otherwise the
/// conservative cross-platform ceiling that some platform enforced.
pub open spec fn oversize_limit_spec(len: usize) -> usize {
    if len > MAX_PAYLOAD_LEN {
        MAX_PAYLOAD_LEN
    } else {
        MAX_COMPATIBLE_PAYLOAD_LEN
    }
}

/// Picks the size ceiling to report for a payload of `len` bytes that the
/// platform refused as too large.
pub fn oversize_limit(len: usize) -> (r: usize)
    ensures
        r == oversize_limit_spec(len),
{
    if len > MAX_PAYLOAD_LEN {
        MAX_PAYLOAD_LEN
    } else {
        MAX_COMPATIBLE_PAYLOAD_LEN
    }
}

} // verus!
