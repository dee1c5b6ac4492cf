use load_balancer::connections_manager::{
    ByteOrder, ClientKey, NatTable, NatTableError, NatTableManager, PacketOrigin, PortsPool,
    TcpUpdateState,
};
use load_balancer::TcpFlags::SYN;

const ALICE: [u8; 4] = [10, 0, 0, 1];
const BOB: [u8; 4] = [10, 0, 0, 2];
const BACKEND: [u8; 4] = [192, 168, 1, 10];

fn table(min_port: u16, max_port: u16) -> NatTable {
    NatTable::new(PortsPool::with_byte_order(min_port, max_port, ByteOrder::BigEndian))
}

#[test]
fn opened_connection_is_found_by_client_and_port() {
    let mut table = table(100, 102);
    let (port, entry) = table.new_conn(4000, ALICE, 80, 8080, BACKEND).unwrap();
    assert_eq!(port, 102);
    assert_eq!(entry.client_port, 4000);
    assert_eq!(entry.client_ip, ALICE);
    assert_eq!(entry.client_dst_port, 80);
    assert_eq!(entry.destination_port, 8080);
    assert_eq!(entry.destination_ip, BACKEND);
    let key = ClientKey::new(ALICE, 4000);
    assert!(table.client_key_exists(&key));
    assert_eq!(table.get_connection_port(&key), Some(102));
    assert!(table.nat_entry_exists(102));
    assert!(!table.nat_entry_exists(101));
    assert_eq!(table.get_nat_entry(102).unwrap().client_port, 4000);
    assert!(table.get_nat_entry(101).is_none());
    assert_eq!(table.get_active_connections(), 1);
}

#[test]
fn channel_of_a_connection_starts_with_the_syn_of_the_client() {
    let mut table = table(100, 102);
    let (port, entry) = table.new_conn(4000, ALICE, 80, 8080, BACKEND).unwrap();
    let first = TcpUpdateState { flags: SYN, origin: PacketOrigin::Client };
    assert_eq!(*entry.tx_flag.borrow(), first);
    assert_eq!(*table.get_nat_entry(port).unwrap().tx_flag.borrow(), first);
}

#[test]
fn entry_in_the_table_shares_the_channel_of_the_one_returned() {
    let mut table = table(100, 102);
    let (port, entry) = table.new_conn(4000, ALICE, 80, 8080, BACKEND).unwrap();
    let stored = table.get_nat_entry(port).unwrap();
    assert!(stored.tx_flag.same_channel(&entry.tx_flag));
    let copy = entry.clone();
    assert!(copy.tx_flag.same_channel(&entry.tx_flag));
    assert_eq!(copy.client_ip, ALICE);
}

#[test]
fn connections_have_channels_of_their_own() {
    let mut table = table(100, 102);
    let (_, one) = table.new_conn(4000, ALICE, 80, 8080, BACKEND).unwrap();
    let (_, other) = table.new_conn(4001, ALICE, 80, 8080, BACKEND).unwrap();
    let rx_one = one.tx_flag.subscribe();
    let rx_other = other.tx_flag.subscribe();
    let update = TcpUpdateState { flags: 0, origin: PacketOrigin::Server };
    one.tx_flag.send(update).unwrap();
    assert_eq!(*rx_one.borrow(), update);
    assert_eq!(rx_other.borrow().flags, SYN);
    assert!(!one.tx_flag.same_channel(&other.tx_flag));
}

#[test]
fn clients_are_told_apart_by_address_and_port() {
    let mut table = table(100, 109);
    let (a, _) = table.new_conn(4000, ALICE, 80, 8080, BACKEND).unwrap();
    let (b, _) = table.new_conn(4001, ALICE, 80, 8080, BACKEND).unwrap();
    let (c, _) = table.new_conn(4000, BOB, 80, 8080, BACKEND).unwrap();
    assert_eq!((a, b, c), (109, 108, 107));
    assert_eq!(table.get_connection_port(&ClientKey::new(ALICE, 4000)), Some(109));
    assert_eq!(table.get_connection_port(&ClientKey::new(ALICE, 4001)), Some(108));
    assert_eq!(table.get_connection_port(&ClientKey::new(BOB, 4000)), Some(107));
    assert_eq!(table.get_connection_port(&ClientKey::new(BOB, 4001)), None);
    assert_eq!(table.get_active_connections(), 3);
}

#[test]
fn empty_pool_refuses_before_anything_else() {
    let mut table = table(100, 100);
    table.new_conn(4000, ALICE, 80, 8080, BACKEND).unwrap();
    assert_eq!(
        table.new_conn(4001, ALICE, 80, 8080, BACKEND).err(),
        Some(NatTableError::NoAvailablePorts)
    );
    assert_eq!(
        table.new_conn(4000, ALICE, 80, 8080, BACKEND).err(),
        Some(NatTableError::NoAvailablePorts)
    );
    assert_eq!(table.get_active_connections(), 1);
}

#[test]
fn known_client_is_refused_and_costs_a_port() {
    let mut table = table(100, 102);
    table.new_conn(4000, ALICE, 80, 8080, BACKEND).unwrap();
    assert_eq!(
        table.new_conn(4000, ALICE, 443, 9090, BACKEND).err(),
        Some(NatTableError::NatEntryAlreadyExists)
    );
    assert_eq!(table.get_connection_port(&ClientKey::new(ALICE, 4000)), Some(102));
    assert_eq!(table.get_nat_entry(102).unwrap().client_dst_port, 80);
    let (port, _) = table.new_conn(4000, BOB, 80, 8080, BACKEND).unwrap();
    assert_eq!(port, 100);
    assert_eq!(
        table.new_conn(4001, BOB, 80, 8080, BACKEND).err(),
        Some(NatTableError::NoAvailablePorts)
    );
}

#[test]
fn port_in_use_is_refused() {
    let mut pool = PortsPool::with_byte_order(1, 2, ByteOrder::BigEndian);
    pool.get_port();
    pool.release_port(1);
    let mut table = NatTable::new(pool);
    let (port, _) = table.new_conn(4000, ALICE, 80, 8080, BACKEND).unwrap();
    assert_eq!(port, 1);
    assert_eq!(
        table.new_conn(4000, BOB, 80, 8080, BACKEND).err(),
        Some(NatTableError::NatEntryAlreadyExists)
    );
    assert!(!table.client_key_exists(&ClientKey::new(BOB, 4000)));
}

#[test]
fn closing_gives_the_connection_back_and_frees_its_port() {
    let mut table = table(100, 102);
    table.new_conn(4000, ALICE, 80, 8080, BACKEND).unwrap();
    let (port, _) = table.new_conn(4000, BOB, 80, 8080, BACKEND).unwrap();
    let entry = table.close_connection(port).unwrap();
    assert_eq!(entry.client_ip, BOB);
    assert!(!table.client_key_exists(&ClientKey::new(BOB, 4000)));
    assert!(!table.nat_entry_exists(port));
    assert_eq!(table.get_active_connections(), 1);
    assert!(table.client_key_exists(&ClientKey::new(ALICE, 4000)));
    let (again, _) = table.new_conn(4000, BOB, 80, 8080, BACKEND).unwrap();
    assert_eq!(again, port);
}

#[test]
fn closing_a_port_that_is_not_in_use_is_an_error() {
    let mut table = table(100, 102);
    assert_eq!(table.close_connection(102).err(), Some(NatTableError::ConnectionNotFound));
    let (port, _) = table.new_conn(4000, ALICE, 80, 8080, BACKEND).unwrap();
    table.close_connection(port).unwrap();
    assert_eq!(table.close_connection(port).err(), Some(NatTableError::ConnectionNotFound));
}

#[test]
fn default_table_uses_the_ephemeral_ports() {
    let mut table = NatTable::default();
    assert_eq!(table.get_active_connections(), 0);
    let (port, _) = table.new_conn(4000, ALICE, 80, 8080, BACKEND).unwrap();
    assert_eq!(port, 60999u16.to_be());
    for client in 1..28232u16 {
        assert!(table.new_conn(client, BOB, 80, 8080, BACKEND).is_ok());
    }
    assert_eq!(table.get_connection_port(&ClientKey::new(BOB, 28231)), Some(32768u16.to_be()));
    assert_eq!(
        table.new_conn(1, BACKEND, 80, 8080, BACKEND).err(),
        Some(NatTableError::NoAvailablePorts)
    );
    assert_eq!(table.get_active_connections(), 28232);
}

#[test]
fn trait_calls_reach_the_table() {
    let mut table = table(100, 102);
    let manager: &mut dyn NatTableManager = &mut table;
    let (port, _) = manager.new_conn(4000, ALICE, 80, 8080, BACKEND).unwrap();
    assert!(manager.nat_entry_exists(port));
    assert!(manager.client_key_exists(&ClientKey::new(ALICE, 4000)));
    assert_eq!(manager.get_connection_port(&ClientKey::new(ALICE, 4000)), Some(port));
    assert_eq!(manager.get_nat_entry(port).unwrap().destination_port, 8080);
    assert_eq!(manager.get_active_connections(), 1);
    assert!(manager.close_connection(port).is_ok());
    assert_eq!(manager.get_active_connections(), 0);
}

#[test]
fn errors_have_messages() {
    assert_eq!(NatTableError::NoAvailablePorts.message(), "No available ports in the pool");
    assert_eq!(
        NatTableError::NatEntryNotFound.message(),
        "NAT entry not found for the given port"
    );
    assert_eq!(
        NatTableError::NatEntryAlreadyExists.message(),
        "NAT entry already exists for the given client"
    );
    assert_eq!(NatTableError::ConnectionNotFound.message(), "Connection does not exists");
}
