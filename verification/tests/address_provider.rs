use load_balancer::connections_balancer::BackendSelector;
use load_balancer::connections_manager::{
    connections_manager_step, AddressProvider, ByteOrder, ClientKey, Ipv4Header, ManagerAction,
    ManagerEvent, NatTable, NatTableError, NatTableManager, NewConnectionError, PacketOrigin,
    PortsPool, Routing, TcpAction, TcpEvent, TcpHeader, TcpStateManager, TcpUpdateState,
};
use load_balancer::TcpFlags::{ACK, FIN, PSH, SYN};
use tokio::time::Instant;

const CLIENT: [u8; 4] = [10, 0, 0, 1];
const STRANGER: [u8; 4] = [10, 0, 0, 9];
const BACKEND: [u8; 4] = [192, 168, 1, 10];

/// Chooses its backends in turn and counts what it is told.
struct Rotation {
    backends: Vec<([u8; 4], u16)>,
    next: usize,
    connections: Vec<([u8; 4], u16)>,
}

impl BackendSelector for Rotation {
    fn backend_exist(&self, ip: [u8; 4], port: u16) -> bool {
        self.backends.contains(&(ip, port))
    }

    fn select_backend(&mut self) -> Option<([u8; 4], u16)> {
        if self.backends.is_empty() {
            return None;
        }
        let chosen = self.backends[self.next % self.backends.len()];
        self.next += 1;
        Some(chosen)
    }

    fn increase_conn(&mut self, ip: [u8; 4], port: u16) {
        self.connections.push((ip, port));
    }
}

fn provider(ports: u16, backends: Vec<([u8; 4], u16)>) -> AddressProvider<NatTable, Rotation> {
    let pool = PortsPool::with_byte_order(100, 100 + ports - 1, ByteOrder::BigEndian);
    AddressProvider::new(
        NatTable::new(pool),
        Rotation { backends, next: 0, connections: Vec::new() },
    )
}

fn from(src_addr: [u8; 4]) -> Ipv4Header {
    Ipv4Header { src_addr }
}

fn tcp(source: u16, dest: u16, flags: u8) -> TcpHeader {
    TcpHeader { source, dest, offset_and_flags: [0x50, flags] }
}

#[test]
fn flags_are_the_second_byte() {
    for flags in 0..=255u8 {
        assert_eq!(TcpHeader { source: 1, dest: 2, offset_and_flags: [0xa5, flags] }.flags(), flags);
    }
}

#[test]
fn origin_is_the_server_if_the_address_is_a_backend() {
    let provider = provider(2, vec![(BACKEND, 8080)]);
    assert_eq!(provider.check_origin(BACKEND, 8080), PacketOrigin::Server);
    assert_eq!(provider.check_origin(BACKEND, 8081), PacketOrigin::Client);
    assert_eq!(provider.check_origin(CLIENT, 8080), PacketOrigin::Client);
}

#[test]
fn first_syn_opens_a_connection_to_the_chosen_backend() {
    let mut provider = provider(3, vec![(BACKEND, 8080)]);
    let routing = provider.get_redirection_addr(&from(CLIENT), &tcp(4000, 80, SYN));
    let connection = match routing {
        Routing::Open(connection) => connection,
        _ => panic!("a SYN opens a connection"),
    };
    assert_eq!(connection.addr.origin_port, 102);
    assert_eq!(connection.addr.dest_ip, BACKEND);
    assert_eq!(connection.addr.dest_port, 8080);
    assert_eq!(connection.event.proxy_port, 102);
    assert_eq!(connection.event.flags, SYN);
    assert_eq!(provider.backends.next, 1);
    let entry = provider.nat_table.get_nat_entry(102).unwrap();
    assert_eq!(entry.client_dst_port, 80);
    assert_eq!(entry.tx_flag.receiver_count(), 1);
}

#[test]
fn backend_counts_a_connection_once_it_is_announced() {
    let mut provider = provider(3, vec![(BACKEND, 8080), (BACKEND, 9090)]);
    let mut addresses = Vec::new();
    for source in [4000, 4001] {
        match provider.get_redirection_addr(&from(CLIENT), &tcp(source, 80, SYN)) {
            Routing::Open(connection) => addresses.push(connection.addr),
            _ => panic!("a SYN opens a connection"),
        }
    }
    assert!(provider.backends.connections.is_empty());
    provider.connection_announced(&addresses[0]);
    assert_eq!(provider.backends.connections, vec![(BACKEND, 8080)]);
    provider.connection_announced(&addresses[1]);
    assert_eq!(provider.backends.connections, vec![(BACKEND, 8080), (BACKEND, 9090)]);
    assert_eq!(provider.backends.next, 2);
    assert_eq!(provider.nat_table.get_active_connections(), 2);
}

#[test]
fn later_packets_follow_the_first_and_are_announced() {
    let mut provider = provider(3, vec![(BACKEND, 8080), (BACKEND, 9090)]);
    let connection = match provider.get_redirection_addr(&from(CLIENT), &tcp(4000, 80, SYN)) {
        Routing::Open(connection) => connection,
        _ => panic!("a SYN opens a connection"),
    };
    match provider.get_redirection_addr(&from(CLIENT), &tcp(4000, 80, ACK | PSH)) {
        Routing::Forward { addr, tx, update } => {
            assert_eq!(addr.origin_port, connection.addr.origin_port);
            assert_eq!(addr.dest_ip, connection.addr.dest_ip);
            assert_eq!(addr.dest_port, connection.addr.dest_port);
            assert_eq!(
                update,
                TcpUpdateState { flags: ACK | PSH, origin: PacketOrigin::Client }
            );
            tx.send(update).unwrap();
            assert_eq!(*connection.event.rx_flag.borrow(), update);
        }
        _ => panic!("the client has a connection"),
    }
    assert_eq!(provider.backends.next, 1);
}

#[test]
fn answers_come_back_to_the_client() {
    let mut provider = provider(3, vec![(BACKEND, 8080)]);
    let connection = match provider.get_redirection_addr(&from(CLIENT), &tcp(4000, 80, SYN)) {
        Routing::Open(connection) => connection,
        _ => panic!("a SYN opens a connection"),
    };
    let answer = tcp(8080, connection.addr.origin_port, SYN | ACK);
    match provider.get_redirection_addr(&from(BACKEND), &answer) {
        Routing::Forward { addr, tx, update } => {
            assert_eq!(addr.origin_port, 80);
            assert_eq!(addr.dest_ip, CLIENT);
            assert_eq!(addr.dest_port, 4000);
            assert_eq!(update.origin, PacketOrigin::Server);
            tx.send(update).unwrap();
            assert_eq!(connection.event.rx_flag.borrow().flags, SYN | ACK);
        }
        _ => panic!("the proxy port is in use"),
    }
}

#[test]
fn answer_to_an_unused_port_is_discarded() {
    let mut provider = provider(3, vec![(BACKEND, 8080)]);
    let routing = provider.get_redirection_addr(&from(BACKEND), &tcp(8080, 101, SYN));
    assert!(matches!(routing, Routing::Discard));
    assert_eq!(provider.nat_table.get_active_connections(), 0);
    assert_eq!(provider.backends.next, 0);
}

#[test]
fn packet_without_syn_opens_nothing_but_turns_the_rotation() {
    let mut provider = provider(3, vec![(BACKEND, 8080)]);
    let routing = provider.get_redirection_addr(&from(CLIENT), &tcp(4000, 80, FIN | ACK));
    assert!(matches!(routing, Routing::Refuse(NewConnectionError::NotSyn)));
    assert_eq!(provider.nat_table.get_active_connections(), 0);
    assert_eq!(provider.backends.next, 1);
    assert!(provider.backends.connections.is_empty());
    let routing = provider.get_redirection_addr(&from(CLIENT), &tcp(4000, 80, SYN));
    assert!(matches!(routing, Routing::Open(_)));
}

#[test]
fn syn_without_backends_is_refused() {
    let mut provider = provider(3, Vec::new());
    let routing = provider.get_redirection_addr(&from(CLIENT), &tcp(4000, 80, SYN));
    assert!(matches!(routing, Routing::Refuse(NewConnectionError::NoBackend)));
    let routing = provider.get_redirection_addr(&from(CLIENT), &tcp(4000, 80, ACK));
    assert!(matches!(routing, Routing::Refuse(NewConnectionError::NotSyn)));
    assert!(provider.backends.connections.is_empty());
}

#[test]
fn syn_without_ports_is_refused() {
    let mut provider = provider(1, vec![(BACKEND, 8080)]);
    let routing = provider.get_redirection_addr(&from(CLIENT), &tcp(4000, 80, SYN));
    assert!(matches!(routing, Routing::Open(_)));
    let routing = provider.get_redirection_addr(&from(STRANGER), &tcp(4000, 80, SYN));
    assert!(matches!(
        routing,
        Routing::Refuse(NewConnectionError::NatTable {
            backend: (BACKEND, 8080),
            error: NatTableError::NoAvailablePorts,
        })
    ));
    assert_eq!(provider.backends.next, 2);
    assert!(provider.backends.connections.is_empty());
    assert!(!provider.nat_table.client_key_exists(&ClientKey::new(STRANGER, 4000)));
}

#[test]
fn connection_is_opened_to_the_backend_that_is_given() {
    let mut provider = provider(2, Vec::new());
    let connection = provider
        .open_connection(CLIENT, 4000, 80, SYN | ACK, Some((BACKEND, 8080)))
        .ok()
        .unwrap();
    assert_eq!(connection.addr.origin_port, 101);
    assert_eq!(connection.event.flags, SYN | ACK);
    assert_eq!(
        provider.open_connection(CLIENT, 4000, 80, SYN, Some((BACKEND, 8080))).err(),
        Some(NewConnectionError::NatTable {
            backend: (BACKEND, 8080),
            error: NatTableError::NatEntryAlreadyExists,
        })
    );
    assert_eq!(
        provider.open_connection(CLIENT, 4000, 80, SYN, None).err(),
        Some(NewConnectionError::NoBackend)
    );
    assert_eq!(
        provider.open_connection(CLIENT, 4000, 80, ACK, None).err(),
        Some(NewConnectionError::NotSyn)
    );
    assert!(provider.backends.connections.is_empty());
}

#[test]
fn addresses_are_found_from_both_sides() {
    let mut provider = provider(2, Vec::new());
    assert!(provider.get_backend_address(CLIENT, 4000).is_none());
    assert!(provider.get_client_address(101).is_none());
    provider.open_connection(CLIENT, 4000, 80, SYN, Some((BACKEND, 8080))).ok().unwrap();
    let (addr, tx) = provider.get_backend_address(CLIENT, 4000).unwrap();
    assert_eq!((addr.origin_port, addr.dest_ip, addr.dest_port), (101, BACKEND, 8080));
    let (back, same) = provider.get_client_address(addr.origin_port).unwrap();
    assert_eq!((back.origin_port, back.dest_ip, back.dest_port), (80, CLIENT, 4000));
    assert!(tx.same_channel(&same));
    assert!(provider.get_backend_address(CLIENT, 4001).is_none());
}

#[test]
fn closed_connection_is_routed_no_more() {
    let mut provider = provider(2, vec![(BACKEND, 8080)]);
    provider.get_redirection_addr(&from(CLIENT), &tcp(4000, 80, SYN));
    provider.nat_table.close_connection(101).ok().unwrap();
    let routing = provider.get_redirection_addr(&from(BACKEND), &tcp(8080, 101, ACK));
    assert!(matches!(routing, Routing::Discard));
    let routing = provider.get_redirection_addr(&from(CLIENT), &tcp(4000, 80, ACK));
    assert!(matches!(routing, Routing::Refuse(NewConnectionError::NotSyn)));
}

#[test]
fn ended_task_leaves_no_trace() {
    let mut provider = provider(2, vec![(BACKEND, 8080)]);
    let connection = match provider.get_redirection_addr(&from(CLIENT), &tcp(4000, 80, SYN)) {
        Routing::Open(connection) => connection,
        _ => panic!("a SYN opens a connection"),
    };
    let (mut manager, _) =
        TcpStateManager::start(&connection.event, Instant::now(), Instant::now());
    let ended = match manager.step(TcpEvent::Timeout) {
        TcpAction::Finish { proxy_port } => proxy_port,
        _ => panic!("a timeout ends the task"),
    };
    match connections_manager_step(ManagerEvent::TaskEnded(Some(ended))) {
        ManagerAction::CloseConnection(port) => {
            assert_eq!(port, 101);
            assert_eq!(provider.nat_table.close_connection(port).ok().unwrap().client_port, 4000);
        }
        _ => panic!("the connection of an ended task is closed"),
    }
    assert_eq!(provider.nat_table.get_active_connections(), 0);
    assert!(provider.get_backend_address(CLIENT, 4000).is_none());
    match provider.get_redirection_addr(&from(STRANGER), &tcp(4000, 80, SYN)) {
        Routing::Open(connection) => assert_eq!(connection.addr.origin_port, 101),
        _ => panic!("a SYN opens a connection"),
    }
}
