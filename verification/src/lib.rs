//! The connection-tracking core of a TCP load balancer.
//!
//! The balancer rewrites the addresses of TCP packets between clients and
//! backends. This crate holds what decides how: the pool of proxy ports, the
//! NAT table, the state machine of one connection, and the routing of a
//! packet. Locks, channels and timers are driven from outside.
use vstd::prelude::*;

#[allow(non_snake_case)]
pub mod TcpFlags;
pub mod connections_balancer;
pub mod connections_manager;

verus! {

/// State of one half (one side) of a TCP connection.
///
/// Only the states that matter to a forwarder are kept: it owns no socket.
#[derive(PartialEq, Eq, Debug, Clone, Copy, Structural)]
pub enum HalfState {
    SynSeen,
    FinSeen,
    RstSeen,
    Established,
    Closed,
    Closing,
    Listen,
}

impl HalfState {
    /// The name of the state, as it is shown to people.
    pub open spec fn label(self) -> Seq<char> {
        match self {
            HalfState::SynSeen => "SYN_SEEN"@,
            HalfState::FinSeen => "FIN_SEEN"@,
            HalfState::RstSeen => "RST_SEEN"@,
            HalfState::Established => "ESTABLISHED"@,
            HalfState::Closed => "CLOSED"@,
            HalfState::Closing => "CLOSING"@,
            HalfState::Listen => "LISTEN"@,
        }
    }

    /// Returns the name of the state.
    pub fn as_str(&self) -> (name: &'static str)
        ensures
            name@ == self.label(),
    {
        match self {
            HalfState::SynSeen => "SYN_SEEN",
            HalfState::FinSeen => "FIN_SEEN",
            HalfState::RstSeen => "RST_SEEN",
            HalfState::Established => "ESTABLISHED",
            HalfState::Closed => "CLOSED",
            HalfState::Closing => "CLOSING",
            HalfState::Listen => "LISTEN",
        }
    }
}

} // verus!
