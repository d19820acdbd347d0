//! A connectionless (datagram) transport adapter core.
//!
//! The verified library holds the protocol-specific decisions of the adapter:
//! payload size limits and their classification, the retry/classification
//! policy for sending a datagram, the per-event decisions of the non-blocking
//! receive/accept drain loops, and the bind/teardown strategy for listening
//! endpoints (including multicast group membership). The socket calls
//! themselves are performed by the surrounding runtime, which feeds their
//! outcomes to these functions as plain values.

pub mod addr;
pub mod limits;
pub mod listen;
pub mod recv;
pub mod send;
