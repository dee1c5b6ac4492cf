use load_balancer::connections_manager::{ByteOrder, PortsPool};

#[test]
fn new_pool_hands_out_every_port_once_in_big_endian() {
    let mut pool = PortsPool::new(32768, 32771);
    assert_eq!(pool.get_max_ports(), 4);
    assert_eq!(pool.get_port(), Some(32771u16.to_be()));
    assert_eq!(pool.get_port(), Some(32770u16.to_be()));
    assert_eq!(pool.get_port(), Some(32769u16.to_be()));
    assert_eq!(pool.get_port(), Some(32768u16.to_be()));
    assert_eq!(pool.get_port(), None);
    assert_eq!(pool.get_port(), None);
    assert_eq!(pool.get_max_ports(), 4);
}

#[test]
fn byte_order_decides_how_ports_are_kept() {
    let mut little = PortsPool::with_byte_order(0x1234, 0x1234, ByteOrder::LittleEndian);
    assert_eq!(little.get_port(), Some(0x3412));
    let mut big = PortsPool::with_byte_order(0x1234, 0x1234, ByteOrder::BigEndian);
    assert_eq!(big.get_port(), Some(0x1234));
}

#[test]
fn big_endian_conversion_is_an_involution() {
    for order in [ByteOrder::BigEndian, ByteOrder::LittleEndian] {
        for port in [0u16, 1, 255, 256, 0x1234, 60999, u16::MAX] {
            assert_eq!(order.to_big_endian(order.to_big_endian(port)), port);
        }
    }
    assert_eq!(ByteOrder::LittleEndian.to_big_endian(1), 256);
    assert_eq!(ByteOrder::BigEndian.to_big_endian(1), 1);
}

#[test]
fn released_port_is_handed_out_next() {
    let mut pool = PortsPool::new(10, 12);
    let first = pool.get_port().unwrap();
    let second = pool.get_port().unwrap();
    assert_ne!(first, second);
    pool.release_port(first);
    assert_eq!(pool.get_port(), Some(first));
    pool.release_port(second);
    pool.release_port(first);
    assert_eq!(pool.get_port(), Some(first));
    assert_eq!(pool.get_port(), Some(second));
}

#[test]
fn full_pool_ignores_a_released_port() {
    let mut pool = PortsPool::with_byte_order(7, 8, ByteOrder::BigEndian);
    pool.release_port(99);
    assert_eq!(pool.get_port(), Some(8));
    assert_eq!(pool.get_port(), Some(7));
    assert_eq!(pool.get_port(), None);
}

#[test]
fn widest_pool_holds_all_but_one_port() {
    let mut pool = PortsPool::with_byte_order(1, u16::MAX, ByteOrder::BigEndian);
    assert_eq!(pool.get_max_ports(), 65535);
    let mut expected = u16::MAX;
    while let Some(port) = pool.get_port() {
        assert_eq!(port, expected);
        expected = expected.wrapping_sub(1);
    }
    assert_eq!(expected, 0);
}
