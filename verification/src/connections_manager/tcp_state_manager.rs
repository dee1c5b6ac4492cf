//! The decisions of the task that watches one connection, and of the task
//! that starts and ends such tasks.
use tokio::sync::watch::Receiver;
use tokio::time::Instant;
use vstd::prelude::*;

use crate::connections_manager::channel::clone_receiver;
use crate::connections_manager::tcp_state::{
    set_conn_state, ConnState, Halves, PacketOrigin, TcpUpdateState, CONNECTION_TIMEOUT_SECS,
};
use crate::HalfState;

verus! {

/// A connection that has just entered the NAT table.
#[derive(Debug)]
pub struct TcpNewConn {
    /// The port that stands for the client towards the backend.
    pub proxy_port: u16,
    /// The flags of the packet that opened the connection.
    pub flags: u8,
    /// Brings what later packets of the connection say.
    pub rx_flag: Receiver<TcpUpdateState>,
}

impl Clone for TcpNewConn {
    fn clone(&self) -> (copy: Self)
        ensures
            copy == *self,
    {
        TcpNewConn {
            proxy_port: self.proxy_port,
            flags: self.flags,
            rx_flag: clone_receiver(&self.rx_flag),
        }
    }
}

/// What the task of a connection can be woken by.
pub enum TcpEvent {
    /// The connection was silent for too long.
    Timeout,
    /// A packet of the connection was announced, and read at `now`.
    Update { update: TcpUpdateState, now: Instant },
    /// The balancer shuts down.
    Cancelled,
}

/// What the task of a connection does next.
#[derive(Debug, PartialEq, Eq, Clone, Copy, Structural)]
pub enum TcpAction {
    /// End, and report the proxy port of the connection.
    Finish { proxy_port: u16 },
    /// Wait on, with the timer as it runs.
    KeepTimer,
    /// Wait on, with the timer started anew for so many seconds.
    RestartTimer { seconds: u64 },
}

/// The state of one connection, as its task keeps it.
#[derive(Debug)]
pub struct TcpStateManager {
    pub proxy_port: u16,
    pub server_state: ConnState,
    pub client_state: ConnState,
}

impl TcpStateManager {
    /// The states of the two sides.
    pub open spec fn halves(self) -> Halves {
        Halves { server: self.server_state.state, client: self.client_state.state }
    }

    /// The same connection with other states of its sides.
    pub open spec fn with_halves(self, halves: Halves) -> TcpStateManager {
        TcpStateManager {
            server_state: ConnState { state: halves.server, ..self.server_state },
            client_state: ConnState { state: halves.client, ..self.client_state },
            ..self
        }
    }

    /// The connection with a packet noted on the side that sent it.
    pub open spec fn noted(self, update: TcpUpdateState, now: Instant) -> TcpStateManager {
        match update.origin {
            PacketOrigin::Client => TcpStateManager {
                client_state: ConnState {
                    last_tcp_flags: update.flags,
                    last_seen: now,
                    ..self.client_state
                },
                ..self
            },
            PacketOrigin::Server => TcpStateManager {
                server_state: ConnState {
                    last_tcp_flags: update.flags,
                    last_seen: now,
                    ..self.server_state
                },
                ..self
            },
        }
    }

    /// The connection after an event. A packet is always noted. It moves the
    /// states unless the server side is closing.
    pub open spec fn after(self, event: TcpEvent) -> TcpStateManager {
        match event {
            TcpEvent::Update { update, now } => {
                if self.server_state.state == HalfState::Closing {
                    self.noted(update, now)
                } else {
                    self.noted(update, now).with_halves(
                        self.halves().after(update.flags, update.origin),
                    )
                }
            },
            _ => self,
        }
    }

    /// What the task does on an event. It ends on a timeout, on cancellation
    /// and on a reset. A packet restarts the timer unless the server side is
    /// closing.
    pub open spec fn action(self, event: TcpEvent) -> TcpAction {
        match event {
            TcpEvent::Update { .. } => {
                let next = self.after(event).halves();
                if self.server_state.state == HalfState::Closing {
                    TcpAction::KeepTimer
                } else if next.server == HalfState::RstSeen || next.client == HalfState::RstSeen {
                    TcpAction::Finish { proxy_port: self.proxy_port }
                } else {
                    TcpAction::RestartTimer { seconds: CONNECTION_TIMEOUT_SECS }
                }
            },
            _ => TcpAction::Finish { proxy_port: self.proxy_port },
        }
    }

    /// The state of a connection whose client has sent its first SYN.
    pub open spec fn started(
        conn: TcpNewConn,
        server_seen: Instant,
        client_seen: Instant,
    ) -> TcpStateManager {
        TcpStateManager {
            proxy_port: conn.proxy_port,
            server_state: ConnState {
                last_tcp_flags: 0,
                state: HalfState::Listen,
                last_seen: server_seen,
            },
            client_state: ConnState {
                last_tcp_flags: conn.flags,
                state: HalfState::SynSeen,
                last_seen: client_seen,
            },
        }
    }

    /// The port that the task reports when it is woken by `events` in turn;
    /// `None` if it still waits after the last of them.
    pub open spec fn report(self, events: Seq<TcpEvent>) -> Option<u16>
        decreases events.len(),
    {
        if events.len() == 0 {
            None
        } else {
            match self.action(events.first()) {
                TcpAction::Finish { proxy_port } => Some(proxy_port),
                _ => self.after(events.first()).report(events.drop_first()),
            }
        }
    }

    /// Makes the state of a connection whose client has sent its first SYN,
    /// and says what its task does first: it starts its timer.
    pub fn start(conn: &TcpNewConn, server_seen: Instant, client_seen: Instant) -> (started: (
        Self,
        TcpAction,
    ))
        ensures
            started.0 == Self::started(*conn, server_seen, client_seen),
            started.1 == (TcpAction::RestartTimer { seconds: CONNECTION_TIMEOUT_SECS }),
    {
        let manager = TcpStateManager {
            proxy_port: conn.proxy_port,
            server_state: ConnState {
                last_tcp_flags: 0,
                state: HalfState::Listen,
                last_seen: server_seen,
            },
            client_state: ConnState {
                last_tcp_flags: conn.flags,
                state: HalfState::SynSeen,
                last_seen: client_seen,
            },
        };
        (manager, TcpAction::RestartTimer { seconds: CONNECTION_TIMEOUT_SECS })
    }

    /// Takes an event in and says what to do next.
    pub fn step(&mut self, event: TcpEvent) -> (action: TcpAction)
        ensures
            *final(self) == old(self).after(event),
            action == old(self).action(event),
    {
        match event {
            TcpEvent::Timeout => TcpAction::Finish { proxy_port: self.proxy_port },
            TcpEvent::Cancelled => TcpAction::Finish { proxy_port: self.proxy_port },
            TcpEvent::Update { update, now } => {
                match update.origin {
                    PacketOrigin::Client => {
                        self.client_state.last_tcp_flags = update.flags;
                        self.client_state.last_seen = now;
                    },
                    PacketOrigin::Server => {
                        self.server_state.last_tcp_flags = update.flags;
                        self.server_state.last_seen = now;
                    },
                }
                if self.server_state.state == HalfState::Closing {
                    return TcpAction::KeepTimer;
                }
                set_conn_state(
                    update.flags,
                    update.origin,
                    &mut self.server_state,
                    &mut self.client_state,
                );
                if self.server_state.state == HalfState::RstSeen || self.client_state.state
                    == HalfState::RstSeen {
                    return TcpAction::Finish { proxy_port: self.proxy_port };
                }
                TcpAction::RestartTimer { seconds: CONNECTION_TIMEOUT_SECS }
            },
        }
    }
}

/// What the task that manages all connections can be woken by.
pub enum ManagerEvent {
    /// A connection was announced; `None` when no one is left to announce any.
    NewConn(Option<TcpNewConn>),
    /// The balancer shuts down.
    Cancelled,
    /// The task of a connection ended and reported its proxy port; `None`
    /// when it failed.
    TaskEnded(Option<u16>),
}

/// What the task that manages all connections does next.
pub enum ManagerAction {
    /// Start a task for the connection.
    Spawn(TcpNewConn),
    /// Take the connection of this proxy port out of the NAT table.
    CloseConnection(u16),
    /// Wait on.
    Continue,
    /// End every task, then this one.
    Shutdown,
}

impl ManagerEvent {
    /// What the manager does on the event. It starts a task for each
    /// connection, closes the connection whose task reports its end, and
    /// shuts down when it is cancelled or when no connection can come any
    /// more. A task that failed changes nothing.
    pub open spec fn action(self) -> ManagerAction {
        match self {
            ManagerEvent::NewConn(Some(conn)) => ManagerAction::Spawn(conn),
            ManagerEvent::NewConn(None) => ManagerAction::Shutdown,
            ManagerEvent::Cancelled => ManagerAction::Shutdown,
            ManagerEvent::TaskEnded(Some(port)) => ManagerAction::CloseConnection(port),
            ManagerEvent::TaskEnded(None) => ManagerAction::Continue,
        }
    }
}

/// A run of the manager: the events that come to it, in turn.
pub struct ManagerRun {
    pub events: Seq<ManagerEvent>,
}

impl ManagerRun {
    /// Whether the manager still runs when event `i` comes: it has not shut
    /// down before.
    pub open spec fn reaches(self, i: int) -> bool {
        &&& 0 <= i <= self.events.len()
        &&& forall|j: int| 0 <= j < i ==> !((#[trigger] self.events[j]).action() is Shutdown)
    }

    /// The action that the manager takes on event `i`; `None` if there is no
    /// such event or the manager has shut down before it.
    pub open spec fn action(self, i: int) -> Option<ManagerAction> {
        if self.reaches(i) && i < self.events.len() {
            Some(self.events[i].action())
        } else {
            None
        }
    }

    /// The events on which the manager starts a task for a connection with
    /// the given proxy port.
    pub open spec fn starts(self, port: u16) -> Set<int> {
        Set::new(
            |i: int|
                self.action(i) matches Some(ManagerAction::Spawn(conn)) && conn.proxy_port == port,
        )
    }

    /// The events on which the manager closes the connection of the port.
    pub open spec fn closes(self, port: u16) -> Set<int> {
        Set::new(|i: int| self.action(i) == Some(ManagerAction::CloseConnection(port)))
    }

    /// The events, while the manager runs, by which a task reports the port.
    pub open spec fn ends(self, port: u16) -> Set<int> {
        Set::new(
            |i: int|
                self.reaches(i) && i < self.events.len() && self.events[i]
                    == ManagerEvent::TaskEnded(Some(port)),
        )
    }

    /// Whether each report comes from a task that the manager started before:
    /// `task` gives the event on which it was started, a task reports once,
    /// and it reports what its connection makes of some events.
    pub open spec fn reports_come_from_tasks(self, task: spec_fn(int) -> int) -> bool {
        &&& forall|i: int| #[trigger]
            self.is_report(i) ==> 0 <= task(i) < i && self.is_report_of(i, task(i))
        &&& forall|i: int, j: int|
            #![trigger self.is_report(i), self.is_report(j)]
            self.is_report(i) && self.is_report(j) && i != j ==> task(i) != task(j)
    }

    /// Whether event `i` is the report of a task.
    pub open spec fn is_report(self, i: int) -> bool {
        0 <= i < self.events.len() && (self.events[i] matches ManagerEvent::TaskEnded(Some(_)))
    }

    /// Whether event `i` can be the report of the task that event `start`
    /// started.
    pub open spec fn is_report_of(self, i: int, start: int) -> bool {
        &&& self.events[i] matches ManagerEvent::TaskEnded(Some(port))
        &&& self.action(start) matches Some(ManagerAction::Spawn(conn))
        &&& exists|server_seen: Instant, client_seen: Instant, woken_by: Seq<TcpEvent>|
            #[trigger] TcpStateManager::started(conn, server_seen, client_seen).report(woken_by)
                == Some(port)
    }
}

/// Says what the task that manages all connections does on an event.
pub fn connections_manager_step(event: ManagerEvent) -> (action: ManagerAction)
    ensures
        action == event.action(),
{
    match event {
        ManagerEvent::NewConn(Some(conn)) => ManagerAction::Spawn(conn),
        ManagerEvent::NewConn(None) => ManagerAction::Shutdown,
        ManagerEvent::Cancelled => ManagerAction::Shutdown,
        ManagerEvent::TaskEnded(Some(port)) => ManagerAction::CloseConnection(port),
        ManagerEvent::TaskEnded(None) => ManagerAction::Continue,
    }
}

} // verus!
