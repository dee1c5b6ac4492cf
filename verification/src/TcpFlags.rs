//! The bits of the TCP flags byte.
use vstd::prelude::*;

verus! {

/// Congestion Window Reduced: set by a sender that received a segment with
/// ECE and responded in its congestion control (RFC 3168).
pub const CWR: u8 = 0b10000000;

/// ECN-Echo. With SYN set, the peer is ECN capable; with SYN clear, a packet
/// with Congestion Experienced was received (RFC 3168).
pub const ECE: u8 = 0b01000000;

/// The urgent pointer field is significant.
pub const URG: u8 = 0b00100000;

/// The acknowledgment field is significant. Every packet after the initial
/// SYN of the client should have it.
pub const ACK: u8 = 0b00010000;

/// Push the buffered data to the receiving application.
pub const PSH: u8 = 0b00001000;

/// Reset the connection.
pub const RST: u8 = 0b00000100;

/// Synchronize sequence numbers. Only the first packet of each end should
/// have it.
pub const SYN: u8 = 0b00000010;

/// No more data from the sender.
pub const FIN: u8 = 0b00000001;

} // verus!
