use load_balancer::connections_manager::{
    connections_manager_step, set_conn_state, ConnState, ManagerAction, ManagerEvent,
    PacketOrigin, TcpAction, TcpEvent, TcpNewConn, TcpStateManager, TcpUpdateState,
    CONNECTION_TIMEOUT_SECS,
};
use load_balancer::HalfState;
use load_balancer::TcpFlags::{ACK, CWR, ECE, FIN, PSH, RST, SYN, URG};
use tokio::sync::watch;
use tokio::time::Instant;

const CLIENT: PacketOrigin = PacketOrigin::Client;
const SERVER: PacketOrigin = PacketOrigin::Server;

fn side(state: HalfState) -> ConnState {
    ConnState { last_tcp_flags: 7, state, last_seen: Instant::now() }
}

/// The states of server and client after a packet.
fn after(server: HalfState, client: HalfState, flags: u8, origin: PacketOrigin) -> (HalfState, HalfState) {
    let mut server_state = side(server);
    let mut client_state = side(client);
    let seen = (server_state.last_seen, client_state.last_seen);
    set_conn_state(flags, origin, &mut server_state, &mut client_state);
    assert_eq!(server_state.last_tcp_flags, 7);
    assert_eq!(client_state.last_tcp_flags, 7);
    assert_eq!((server_state.last_seen, client_state.last_seen), seen);
    (server_state.state, client_state.state)
}

fn new_conn(proxy_port: u16, flags: u8) -> TcpNewConn {
    let (_, rx_flag) = watch::channel(TcpUpdateState { flags, origin: CLIENT });
    TcpNewConn { proxy_port, flags, rx_flag }
}

fn update(flags: u8, origin: PacketOrigin) -> TcpEvent {
    TcpEvent::Update { update: TcpUpdateState { flags, origin }, now: Instant::now() }
}

#[test]
fn flags_have_their_bits() {
    assert_eq!([CWR, ECE, URG, ACK, PSH, RST, SYN, FIN], [128, 64, 32, 16, 8, 4, 2, 1]);
}

#[test]
fn states_have_names() {
    assert_eq!(HalfState::SynSeen.as_str(), "SYN_SEEN");
    assert_eq!(HalfState::FinSeen.as_str(), "FIN_SEEN");
    assert_eq!(HalfState::RstSeen.as_str(), "RST_SEEN");
    assert_eq!(HalfState::Established.as_str(), "ESTABLISHED");
    assert_eq!(HalfState::Closed.as_str(), "CLOSED");
    assert_eq!(HalfState::Closing.as_str(), "CLOSING");
    assert_eq!(HalfState::Listen.as_str(), "LISTEN");
}

#[test]
fn reset_counts_before_everything() {
    let both = (HalfState::RstSeen, HalfState::RstSeen);
    assert_eq!(after(HalfState::Listen, HalfState::SynSeen, RST, SERVER), both);
    assert_eq!(after(HalfState::Established, HalfState::Established, RST | ACK, CLIENT), both);
    assert_eq!(after(HalfState::FinSeen, HalfState::Closing, RST | SYN | FIN, SERVER), both);
}

#[test]
fn handshake_establishes_both_sides() {
    let (server, client) = after(HalfState::Listen, HalfState::SynSeen, SYN | ACK, SERVER);
    assert_eq!((server, client), (HalfState::SynSeen, HalfState::SynSeen));
    assert_eq!(
        after(server, client, ACK, CLIENT),
        (HalfState::Established, HalfState::Established)
    );
    assert_eq!(after(server, client, ACK, SERVER), (HalfState::SynSeen, HalfState::SynSeen));
}

#[test]
fn server_opens_only_with_syn_and_ack() {
    assert_eq!(
        after(HalfState::Listen, HalfState::SynSeen, SYN, SERVER),
        (HalfState::Listen, HalfState::SynSeen)
    );
    assert_eq!(
        after(HalfState::Listen, HalfState::SynSeen, SYN | FIN, SERVER),
        (HalfState::FinSeen, HalfState::SynSeen)
    );
    assert_eq!(
        after(HalfState::Listen, HalfState::Established, SYN | ACK, CLIENT),
        (HalfState::Listen, HalfState::SynSeen)
    );
}

#[test]
fn acknowledged_fin_closes_its_side() {
    let up = (HalfState::Established, HalfState::Established);
    let (server, client) = after(up.0, up.1, FIN | ACK, CLIENT);
    assert_eq!((server, client), (HalfState::Established, HalfState::FinSeen));
    assert_eq!(after(server, client, ACK, SERVER), (HalfState::Established, HalfState::Closing));
    assert_eq!(after(server, client, ACK, CLIENT), (server, client));
    let (server, client) = after(up.0, up.1, FIN, SERVER);
    assert_eq!((server, client), (HalfState::FinSeen, HalfState::Established));
    assert_eq!(after(server, client, ACK, CLIENT), (HalfState::Closing, HalfState::Established));
}

#[test]
fn plain_packet_changes_no_state() {
    for flags in [0, PSH, URG, ECE, CWR, PSH | URG | ECE | CWR] {
        for origin in [CLIENT, SERVER] {
            assert_eq!(
                after(HalfState::FinSeen, HalfState::SynSeen, flags, origin),
                (HalfState::FinSeen, HalfState::SynSeen)
            );
        }
    }
}

#[test]
fn new_connection_waits_for_the_server() {
    let now = Instant::now();
    let (manager, first) = TcpStateManager::start(&new_conn(40000, SYN | ECE), now, now);
    assert_eq!(manager.proxy_port, 40000);
    assert_eq!(manager.server_state.state, HalfState::Listen);
    assert_eq!(manager.server_state.last_tcp_flags, 0);
    assert_eq!(manager.client_state.state, HalfState::SynSeen);
    assert_eq!(manager.client_state.last_tcp_flags, SYN | ECE);
    assert_eq!(first, TcpAction::RestartTimer { seconds: 60 });
    assert_eq!(CONNECTION_TIMEOUT_SECS, 60);
}

#[test]
fn connection_lives_from_handshake_to_timeout() {
    let now = Instant::now();
    let (mut manager, _) = TcpStateManager::start(&new_conn(40000, SYN), now, now);
    assert_eq!(manager.step(update(SYN | ACK, SERVER)), TcpAction::RestartTimer { seconds: 60 });
    assert_eq!(manager.step(update(ACK, CLIENT)), TcpAction::RestartTimer { seconds: 60 });
    assert_eq!(manager.server_state.state, HalfState::Established);
    assert_eq!(manager.client_state.state, HalfState::Established);
    assert_eq!(manager.step(update(FIN | ACK, SERVER)), TcpAction::RestartTimer { seconds: 60 });
    assert_eq!(manager.step(update(ACK, CLIENT)), TcpAction::RestartTimer { seconds: 60 });
    assert_eq!(manager.server_state.state, HalfState::Closing);
    assert_eq!(manager.step(update(ACK | PSH, SERVER)), TcpAction::KeepTimer);
    assert_eq!(manager.step(update(RST, CLIENT)), TcpAction::KeepTimer);
    assert_eq!(manager.client_state.state, HalfState::Established);
    assert_eq!(manager.client_state.last_tcp_flags, RST);
    assert_eq!(manager.server_state.last_tcp_flags, ACK | PSH);
    assert_eq!(manager.step(TcpEvent::Timeout), TcpAction::Finish { proxy_port: 40000 });
}

#[test]
fn reset_and_cancellation_end_the_task() {
    let now = Instant::now();
    let (mut manager, _) = TcpStateManager::start(&new_conn(40001, SYN), now, now);
    assert_eq!(manager.step(update(RST, SERVER)), TcpAction::Finish { proxy_port: 40001 });
    let (mut manager, _) = TcpStateManager::start(&new_conn(40002, SYN), now, now);
    assert_eq!(manager.step(TcpEvent::Cancelled), TcpAction::Finish { proxy_port: 40002 });
    assert_eq!(manager.client_state.state, HalfState::SynSeen);
}

#[test]
fn packet_is_noted_on_the_side_that_sent_it() {
    let start = Instant::now();
    let later = start + tokio::time::Duration::from_secs(5);
    let (mut manager, _) = TcpStateManager::start(&new_conn(40000, SYN), start, start);
    manager.step(TcpEvent::Update {
        update: TcpUpdateState { flags: PSH, origin: SERVER },
        now: later,
    });
    assert_eq!(manager.server_state.last_seen, later);
    assert_eq!(manager.server_state.last_tcp_flags, PSH);
    assert_eq!(manager.client_state.last_seen, start);
    assert_eq!(manager.client_state.last_tcp_flags, SYN);
}

#[test]
fn cloned_announcement_listens_to_the_same_channel() {
    let (tx, rx_flag) = watch::channel(TcpUpdateState { flags: SYN, origin: CLIENT });
    let conn = TcpNewConn { proxy_port: 9, flags: SYN, rx_flag };
    let copy = conn.clone();
    assert_eq!(copy.proxy_port, 9);
    assert!(copy.rx_flag.same_channel(&conn.rx_flag));
    tx.send(TcpUpdateState { flags: FIN, origin: SERVER }).unwrap();
    assert!(copy.rx_flag.has_changed().unwrap());
    assert_eq!(copy.rx_flag.borrow().flags, FIN);
}

#[test]
fn manager_starts_closes_and_stops() {
    match connections_manager_step(ManagerEvent::NewConn(Some(new_conn(40003, SYN)))) {
        ManagerAction::Spawn(conn) => assert_eq!(conn.proxy_port, 40003),
        _ => panic!("a new connection starts a task"),
    }
    assert!(matches!(
        connections_manager_step(ManagerEvent::NewConn(None)),
        ManagerAction::Shutdown
    ));
    assert!(matches!(
        connections_manager_step(ManagerEvent::Cancelled),
        ManagerAction::Shutdown
    ));
    assert!(matches!(
        connections_manager_step(ManagerEvent::TaskEnded(Some(40003))),
        ManagerAction::CloseConnection(40003)
    ));
    assert!(matches!(
        connections_manager_step(ManagerEvent::TaskEnded(None)),
        ManagerAction::Continue
    ));
}

#[test]
fn every_transition_keeps_the_rules_of_the_machine() {
    let states = [
        HalfState::SynSeen,
        HalfState::FinSeen,
        HalfState::RstSeen,
        HalfState::Established,
        HalfState::Closed,
        HalfState::Closing,
        HalfState::Listen,
    ];
    for server in states {
        for client in states {
            for flags in 0..=255u8 {
                for origin in [CLIENT, SERVER] {
                    let (s, c) = after(server, client, flags, origin);
                    if flags & RST != 0 {
                        assert_eq!((s, c), (HalfState::RstSeen, HalfState::RstSeen));
                        continue;
                    }
                    for (old, new) in [(server, s), (client, c)] {
                        if old == new {
                            continue;
                        }
                        assert_ne!(new, HalfState::RstSeen);
                        assert_ne!(new, HalfState::Closed);
                        assert_ne!(new, HalfState::Listen);
                        if new == HalfState::Established {
                            assert_eq!((server, client), (HalfState::SynSeen, HalfState::SynSeen));
                            assert_eq!((s, c), (new, new));
                            assert_eq!(origin, CLIENT);
                            assert!(flags & ACK != 0);
                        }
                    }
                }
            }
        }
    }
}

#[test]
fn manager_closes_each_reported_connection_once_over_a_run() {
    let events = vec![
        ManagerEvent::NewConn(Some(new_conn(40000, SYN))),
        ManagerEvent::NewConn(Some(new_conn(40001, SYN))),
        ManagerEvent::TaskEnded(Some(40001)),
        ManagerEvent::TaskEnded(None),
        ManagerEvent::NewConn(Some(new_conn(40001, SYN))),
        ManagerEvent::TaskEnded(Some(40000)),
        ManagerEvent::TaskEnded(Some(40001)),
        ManagerEvent::Cancelled,
        ManagerEvent::TaskEnded(Some(40002)),
    ];
    let mut started = Vec::new();
    let mut closed = Vec::new();
    for event in events {
        match connections_manager_step(event) {
            ManagerAction::Spawn(conn) => started.push(conn.proxy_port),
            ManagerAction::CloseConnection(port) => closed.push(port),
            ManagerAction::Continue => {}
            ManagerAction::Shutdown => break,
        }
    }
    assert_eq!(started, vec![40000, 40001, 40001]);
    assert_eq!(closed, vec![40001, 40000, 40001]);
}

#[test]
fn task_reports_its_own_port_after_any_packets() {
    for last in [TcpEvent::Timeout, TcpEvent::Cancelled] {
        let now = Instant::now();
        let (mut manager, _) = TcpStateManager::start(&new_conn(41000, SYN), now, now);
        for flags in [SYN | ACK, ACK, PSH, FIN, 0] {
            for origin in [SERVER, CLIENT] {
                assert!(!matches!(
                    manager.step(update(flags, origin)),
                    TcpAction::Finish { .. }
                ));
            }
        }
        assert_eq!(manager.step(last), TcpAction::Finish { proxy_port: 41000 });
    }
}
