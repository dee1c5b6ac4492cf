//! The state machine of one TCP connection, seen from between its two ends.
use tokio::time::Instant;
use vstd::prelude::*;

use crate::HalfState;
use crate::TcpFlags::{ACK, FIN, RST, SYN};

verus! {

/// How many seconds a connection may stay silent before it is dropped.
pub const CONNECTION_TIMEOUT_SECS: u64 = 60;

/// The side a packet comes from.
#[derive(Copy, Debug, Clone, PartialEq, Eq, Hash, Structural)]
pub enum PacketOrigin {
    Client,
    Server,
}

/// What a packet tells the task that watches its connection.
#[derive(Debug, Clone, PartialEq, Eq, Hash, Copy, Structural)]
pub struct TcpUpdateState {
    /// The flags byte of the packet.
    pub flags: u8,
    /// The side that sent it.
    pub origin: PacketOrigin,
}

/// What is known of one side of a connection.
#[derive(Debug)]
pub struct ConnState {
    /// The flags of the last packet that came from this side.
    pub last_tcp_flags: u8,
    /// The state of this side.
    pub state: HalfState,
    /// When the last packet from this side was seen.
    pub last_seen: Instant,
}

/// Whether `flags` carries the flag bit `flag`.
pub open spec fn carries(flags: u8, flag: u8) -> bool {
    flags & flag != 0
}

/// What a packet means to its connection.
pub enum Signal {
    /// The connection is reset.
    Reset,
    /// The sender opens its half.
    Open,
    /// The sender has no more data.
    Finish,
    /// The sender acknowledges what the other side did.
    Acknowledge,
    /// Nothing that matters to the state.
    Nothing,
}

/// The meaning of a packet: RST counts before SYN, SYN before FIN and FIN
/// before ACK. A server opens its half only with SYN and ACK together.
pub open spec fn signal(flags: u8, origin: PacketOrigin) -> Signal {
    if carries(flags, RST) {
        Signal::Reset
    } else if carries(flags, SYN) && (origin is Client || carries(flags, ACK)) {
        Signal::Open
    } else if carries(flags, FIN) {
        Signal::Finish
    } else if carries(flags, ACK) {
        Signal::Acknowledge
    } else {
        Signal::Nothing
    }
}

impl PacketOrigin {
    /// The other side.
    pub open spec fn peer(self) -> PacketOrigin {
        match self {
            PacketOrigin::Client => PacketOrigin::Server,
            PacketOrigin::Server => PacketOrigin::Client,
        }
    }
}

/// The states of the two sides of a connection.
pub struct Halves {
    pub server: HalfState,
    pub client: HalfState,
}

impl Halves {
    /// The state of one side.
    pub open spec fn of(self, side: PacketOrigin) -> HalfState {
        match side {
            PacketOrigin::Client => self.client,
            PacketOrigin::Server => self.server,
        }
    }

    /// The same states, but for one side.
    pub open spec fn with(self, side: PacketOrigin, state: HalfState) -> Halves {
        match side {
            PacketOrigin::Client => Halves { client: state, ..self },
            PacketOrigin::Server => Halves { server: state, ..self },
        }
    }

    /// Both sides in one state.
    pub open spec fn both(state: HalfState) -> Halves {
        Halves { server: state, client: state }
    }

    /// The states after a packet.
    pub open spec fn after(self, flags: u8, origin: PacketOrigin) -> Halves {
        match signal(flags, origin) {
            Signal::Reset => Self::both(HalfState::RstSeen),
            Signal::Open => self.with(origin, HalfState::SynSeen),
            Signal::Finish => self.with(origin, HalfState::FinSeen),
            Signal::Acknowledge => {
                if origin is Client && self == Self::both(HalfState::SynSeen) {
                    Self::both(HalfState::Established)
                } else if self.of(origin.peer()) == HalfState::FinSeen {
                    self.with(origin.peer(), HalfState::Closing)
                } else {
                    self
                }
            },
            Signal::Nothing => self,
        }
    }
}

/// Moves the states of the two sides as a packet with the given flags from
/// the given side asks for. Nothing but the states changes.
pub fn set_conn_state(
    flags: u8,
    origin: PacketOrigin,
    server_state: &mut ConnState,
    client_state: &mut ConnState,
)
    ensures
        ({
            let next = (Halves {
                server: old(server_state).state,
                client: old(client_state).state,
            }).after(flags, origin);
            &&& *final(server_state) == ConnState { state: next.server, ..*old(server_state) }
            &&& *final(client_state) == ConnState { state: next.client, ..*old(client_state) }
        }),
{
    match flags {
        f if f & RST != 0 => {
            client_state.state = HalfState::RstSeen;
            server_state.state = HalfState::RstSeen;
        },
        f if f & SYN != 0 && f & ACK != 0 && origin == PacketOrigin::Server => {
            server_state.state = HalfState::SynSeen;
        },
        f if f & SYN != 0 && origin == PacketOrigin::Client => {
            client_state.state = HalfState::SynSeen;
        },
        f if f & FIN != 0 => {
            if origin == PacketOrigin::Client {
                client_state.state = HalfState::FinSeen;
            } else {
                server_state.state = HalfState::FinSeen;
            }
        },
        f if f & ACK != 0 => {
            if origin == PacketOrigin::Client && client_state.state == HalfState::SynSeen
                && server_state.state == HalfState::SynSeen {
                client_state.state = HalfState::Established;
                server_state.state = HalfState::Established;
            }
            if origin == PacketOrigin::Server && client_state.state == HalfState::FinSeen {
                client_state.state = HalfState::Closing;
            }
            if origin == PacketOrigin::Client && server_state.state == HalfState::FinSeen {
                server_state.state = HalfState::Closing;
            }
        },
        _ => {},
    }
}

} // verus!
