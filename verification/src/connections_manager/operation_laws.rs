//! What each operation does, told by its inputs and its results alone: the
//! bits of the flags, the fields of a packet, the maps of the table.
use vstd::prelude::*;

use crate::connections_balancer::BackendSelector;
use crate::connections_manager::address_provider::{
    AddressProvider, Ipv4Header, NewConnection, NewConnectionError, Packet, RedirectionAddress,
    Routing, TcpHeader,
};
use crate::connections_manager::channel::{initial_update, sending_half};
use crate::connections_manager::nat_table::{
    ClientKey, ConnRequest, NatEntry, NatState, NatTableError, NatTableManager,
};
use crate::connections_manager::ports_pool::{ByteOrder, PoolState};
use crate::connections_manager::tcp_state::{
    Halves, PacketOrigin, TcpUpdateState, CONNECTION_TIMEOUT_SECS,
};
use crate::connections_manager::tcp_state_manager::{
    ManagerAction, ManagerEvent, ManagerRun, TcpAction, TcpEvent, TcpNewConn, TcpStateManager,
};
use crate::HalfState;
use crate::TcpFlags::{ACK, FIN, RST, SYN};

verus! {

/// On a big endian machine a port stays as it is; on a little endian one its
/// high byte becomes the low one and its low byte the high one.
pub proof fn law_bytes_of_a_big_endian_port(port: u16)
    ensures
        ByteOrder::BigEndian.big_endian(port) == port,
        ByteOrder::LittleEndian.big_endian(port) % 256 == port / 256,
        ByteOrder::LittleEndian.big_endian(port) / 256 == port % 256,
{
}

/// A new pool hands out the ports of its range from the highest down: first
/// the highest one, after which it is as a new pool without that port, but
/// for the room it has. After its lowest port it is empty.
pub proof fn law_new_pool_counts_down(min_port: u16, max_port: u16, order: ByteOrder)
    requires
        min_port <= max_port,
    ensures
        PoolState::full(min_port, max_port, order).capacity == max_port - min_port + 1,
        PoolState::full(min_port, max_port, order).next() == Some(order.big_endian(max_port)),
        min_port < max_port ==> PoolState::full(min_port, max_port, order).taken().free
            == PoolState::full(min_port, (max_port - 1) as u16, order).free,
        min_port == max_port ==> PoolState::full(min_port, max_port, order).taken().next() is None,
{
    if min_port < max_port {
        assert(PoolState::full(min_port, max_port, order).taken().free =~= PoolState::full(
            min_port,
            (max_port - 1) as u16,
            order,
        ).free);
    }
}

/// An empty pool gives nothing and a full one takes nothing. No pool changes
/// how much room it has. Otherwise a port that is asked for leaves the pool
/// and one that is given back comes in, and the others stay in their order.
pub proof fn law_pool_moves_one_port(pool: PoolState, port: u16)
    ensures
        pool.taken().capacity == pool.capacity,
        pool.released(port).capacity == pool.capacity,
        pool.free.len() == 0 ==> pool.next() is None && pool.taken() == pool,
        pool.free.len() > 0 ==> pool.next() is Some && pool.taken().free.push(pool.next()->0)
            == pool.free,
        pool.free.len() >= pool.capacity ==> pool.released(port) == pool,
        pool.free.len() < pool.capacity ==> pool.released(port).free.len() == pool.free.len() + 1
            && pool.released(port).next() == Some(port) && pool.released(port).taken() == pool,
{
    if pool.free.len() > 0 {
        assert(pool.taken().free.push(pool.next()->0) =~= pool.free);
    }
    if pool.free.len() < pool.capacity {
        assert(pool.released(port).taken().free =~= pool.free);
    }
}

/// A new table has a connection under no port and of no client, and the pool
/// that it was given.
pub proof fn law_fresh_table_is_empty(pool: PoolState, port: u16, key: ClientKey)
    ensures
        !NatState::fresh(pool).entries.contains_key(port),
        !NatState::fresh(pool).clients.contains_key(key),
        NatState::fresh(pool).pool == pool,
{
}

/// The lookups find what the maps of the table hold, and nothing else.
pub proof fn law_lookups_read_the_maps(table: NatState, port: u16, key: ClientKey)
    ensures
        table.entry(port) is Some <==> table.entries.contains_key(port),
        table.entry(port) is Some ==> table.entry(port)->0 == table.entries[port],
        table.port_of(key) is Some <==> table.clients.contains_key(key),
        table.port_of(key) is Some ==> table.port_of(key)->0 == table.clients[key],
{
}

/// Without a free port a request for a connection is refused for that
/// reason, and the table stays as it was.
pub proof fn law_request_without_a_free_port(
    request: ConnRequest,
    before: NatState,
    after: NatState,
    result: Result<(u16, NatEntry), NatTableError>,
)
    requires
        request.outcome(before, after, result),
        before.pool.free.len() == 0,
    ensures
        result == Err::<(u16, NatEntry), NatTableError>(NatTableError::NoAvailablePorts),
        after == before,
{
}

/// With a free port, a request is refused for no other reason than that its
/// client has a connection or that the port is in use. The connections stay
/// as they were and the port is lost.
pub proof fn law_request_that_meets_a_connection(
    request: ConnRequest,
    before: NatState,
    after: NatState,
    result: Result<(u16, NatEntry), NatTableError>,
)
    requires
        request.outcome(before, after, result),
        before.pool.free.len() > 0,
    ensures
        result is Err <==> (before.clients.contains_key(
            ClientKey { client_ip: request.client_ip, client_port: request.client_port },
        ) || before.entries.contains_key(before.pool.free.last())),
        result is Err ==> {
            &&& result == Err::<(u16, NatEntry), NatTableError>(
                NatTableError::NatEntryAlreadyExists,
            )
            &&& after.entries == before.entries
            &&& after.clients == before.clients
            &&& after.pool.free == before.pool.free.drop_last()
            &&& after.pool.capacity == before.pool.capacity
        },
{
}

/// A request that is granted gets the free port that came in last. The entry
/// holds the addresses of the request, its channel belongs to no other
/// connection and starts with the SYN of the client. The table has the entry
/// under the port and the port under the address of the client, and is
/// otherwise as it was.
pub proof fn law_request_that_is_granted(
    request: ConnRequest,
    before: NatState,
    after: NatState,
    port: u16,
    entry: NatEntry,
)
    requires
        request.outcome(before, after, Ok((port, entry))),
    ensures
        before.pool.free.len() > 0,
        port == before.pool.free.last(),
        entry.client_port == request.client_port,
        entry.client_ip == request.client_ip,
        entry.client_dst_port == request.client_dst_port,
        entry.destination_port == request.destination_port,
        entry.destination_ip == request.destination_ip,
        initial_update(entry.tx_flag).flags == SYN,
        initial_update(entry.tx_flag).origin == PacketOrigin::Client,
        forall|other: u16| #[trigger]
            before.entries.contains_key(other) ==> before.entries[other].tx_flag != entry.tx_flag,
        after.entries == before.entries.insert(port, entry),
        after.clients == before.clients.insert(
            ClientKey { client_ip: request.client_ip, client_port: request.client_port },
            port,
        ),
        after.pool.free == before.pool.free.drop_last(),
        after.pool.capacity == before.pool.capacity,
{
}

/// Closing the connection of a port takes it out of both maps and puts the
/// port on top of the pool, if there is room. Nothing else changes.
pub proof fn law_close_takes_out_one_connection(table: NatState, port: u16)
    ensures
        table.closed(port).entries == table.entries.remove(port),
        table.closed(port).clients == table.clients.remove(
            ClientKey {
                client_ip: table.entries[port].client_ip,
                client_port: table.entries[port].client_port,
            },
        ),
        table.closed(port).pool.free == if table.pool.free.len() < table.pool.capacity {
            table.pool.free.push(port)
        } else {
            table.pool.free
        },
        table.closed(port).pool.capacity == table.pool.capacity,
{
}

/// RST, whatever else is set, resets both sides.
pub proof fn law_states_after_rst(halves: Halves, flags: u8, origin: PacketOrigin)
    requires
        flags & RST != 0,
    ensures
        halves.after(flags, origin).server == HalfState::RstSeen,
        halves.after(flags, origin).client == HalfState::RstSeen,
{
}

/// Without RST, a SYN of the client opens the client side alone, whatever
/// else is set.
pub proof fn law_states_after_syn_of_the_client(halves: Halves, flags: u8)
    requires
        flags & RST == 0,
        flags & SYN != 0,
    ensures
        halves.after(flags, PacketOrigin::Client).client == HalfState::SynSeen,
        halves.after(flags, PacketOrigin::Client).server == halves.server,
{
}

/// Without RST, SYN and ACK of the server open the server side alone,
/// whatever else is set.
pub proof fn law_states_after_syn_ack_of_the_server(halves: Halves, flags: u8)
    requires
        flags & RST == 0,
        flags & SYN != 0,
        flags & ACK != 0,
    ensures
        halves.after(flags, PacketOrigin::Server).server == HalfState::SynSeen,
        halves.after(flags, PacketOrigin::Server).client == halves.client,
{
}

/// Without RST and without what opens a side, a FIN finishes the side that
/// sent it and leaves the other side as it was.
pub proof fn law_states_after_fin(halves: Halves, flags: u8, origin: PacketOrigin)
    requires
        flags & RST == 0,
        flags & SYN == 0 || (origin == PacketOrigin::Server && flags & ACK == 0),
        flags & FIN != 0,
    ensures
        origin == PacketOrigin::Client ==> {
            &&& halves.after(flags, origin).client == HalfState::FinSeen
            &&& halves.after(flags, origin).server == halves.server
        },
        origin == PacketOrigin::Server ==> {
            &&& halves.after(flags, origin).server == HalfState::FinSeen
            &&& halves.after(flags, origin).client == halves.client
        },
{
}

/// An ACK without RST, SYN and FIN does one of three things: from the client
/// it establishes both sides if both have opened, and from either side it
/// makes the other side closing if that one had finished. Otherwise, as
/// between established sides, it changes nothing.
pub proof fn law_states_after_ack(halves: Halves, flags: u8, origin: PacketOrigin)
    requires
        flags & RST == 0,
        flags & SYN == 0,
        flags & FIN == 0,
        flags & ACK != 0,
    ensures
        ({
            let next = halves.after(flags, origin);
            let opened = origin == PacketOrigin::Client && halves.server == HalfState::SynSeen
                && halves.client == HalfState::SynSeen;
            let finished = match origin {
                PacketOrigin::Client => halves.server == HalfState::FinSeen,
                PacketOrigin::Server => halves.client == HalfState::FinSeen,
            };
            &&& opened ==> next.server == HalfState::Established && next.client
                == HalfState::Established
            &&& finished && origin == PacketOrigin::Client ==> next.server == HalfState::Closing
                && next.client == halves.client
            &&& finished && origin == PacketOrigin::Server ==> next.client == HalfState::Closing
                && next.server == halves.server
            &&& !opened && !finished ==> next == halves
        }),
{
}

/// Any other packet changes nothing: one without RST, FIN and ACK that has
/// no SYN, or has the SYN of the server.
pub proof fn law_states_after_any_other_packet(halves: Halves, flags: u8, origin: PacketOrigin)
    requires
        flags & RST == 0,
        flags & SYN == 0 || origin == PacketOrigin::Server,
        flags & FIN == 0,
        flags & ACK == 0,
    ensures
        halves.after(flags, origin) == halves,
{
}

/// A side becomes closing only if it had finished and the other side sent an
/// ACK. Nothing else makes a side closing.
pub proof fn law_closing_comes_after_fin(halves: Halves, flags: u8, origin: PacketOrigin)
    ensures
        halves.after(flags, origin).server == HalfState::Closing && halves.server
            != HalfState::Closing ==> halves.server == HalfState::FinSeen && origin
            == PacketOrigin::Client && flags & ACK != 0,
        halves.after(flags, origin).client == HalfState::Closing && halves.client
            != HalfState::Closing ==> halves.client == HalfState::FinSeen && origin
            == PacketOrigin::Server && flags & ACK != 0,
{
}

/// The task of a connection begins with a client that has sent the packet it
/// was told of and a server that has sent nothing.
pub proof fn law_task_begins_with_the_syn(
    conn: TcpNewConn,
    server_seen: tokio::time::Instant,
    client_seen: tokio::time::Instant,
)
    ensures
        ({
            let manager = TcpStateManager::started(conn, server_seen, client_seen);
            &&& manager.proxy_port == conn.proxy_port
            &&& manager.server_state.last_tcp_flags == 0
            &&& manager.server_state.state == HalfState::Listen
            &&& manager.server_state.last_seen == server_seen
            &&& manager.client_state.last_tcp_flags == conn.flags
            &&& manager.client_state.state == HalfState::SynSeen
            &&& manager.client_state.last_seen == client_seen
        }),
{
}

/// Unless the server side is closing, a packet moves the states of a
/// connection as `set_conn_state` does, and in no other way. While the server
/// side is closing it moves none.
pub proof fn law_packet_moves_the_states_of_a_connection(
    manager: TcpStateManager,
    update: TcpUpdateState,
    now: tokio::time::Instant,
)
    ensures
        ({
            let after = manager.after(TcpEvent::Update { update, now });
            let server = manager.server_state.state;
            let client = manager.client_state.state;
            let next = (Halves { server, client }).after(update.flags, update.origin);
            &&& server == HalfState::Closing ==> after.server_state.state == server
                && after.client_state.state == client
            &&& server != HalfState::Closing ==> after.server_state.state == next.server
                && after.client_state.state == next.client
        }),
{
}

/// A timeout and a cancellation end the task with its own port and change
/// nothing.
pub proof fn law_timeout_and_cancellation_finish(manager: TcpStateManager)
    ensures
        manager.after(TcpEvent::Timeout) == manager,
        manager.after(TcpEvent::Cancelled) == manager,
        manager.action(TcpEvent::Timeout) == (TcpAction::Finish {
            proxy_port: manager.proxy_port,
        }),
        manager.action(TcpEvent::Cancelled) == (TcpAction::Finish {
            proxy_port: manager.proxy_port,
        }),
{
}

/// A packet leaves the timer alone if the server side is closing. Otherwise it
/// ends the task with its own port if a side is reset once it is through, and
/// restarts the timer for the time of silence if none is.
pub proof fn law_packet_decides_the_timer(
    manager: TcpStateManager,
    update: TcpUpdateState,
    now: tokio::time::Instant,
)
    ensures
        ({
            let event = TcpEvent::Update { update, now };
            let after = manager.after(event);
            manager.action(event) == if manager.server_state.state == HalfState::Closing {
                TcpAction::KeepTimer
            } else if after.server_state.state == HalfState::RstSeen || after.client_state.state
                == HalfState::RstSeen {
                TcpAction::Finish { proxy_port: manager.proxy_port }
            } else {
                TcpAction::RestartTimer { seconds: CONNECTION_TIMEOUT_SECS }
            }
        }),
{
}

/// The manager starts a task for every connection, closes the connection of
/// every port that is reported, goes on after a task that failed, and shuts
/// down when it is cancelled or no connection can come.
pub proof fn law_manager_answers_every_event(conn: TcpNewConn, port: u16)
    ensures
        ManagerEvent::NewConn(Some(conn)).action() == ManagerAction::Spawn(conn),
        ManagerEvent::NewConn(None).action() == ManagerAction::Shutdown,
        ManagerEvent::Cancelled.action() == ManagerAction::Shutdown,
        ManagerEvent::TaskEnded(Some(port)).action() == ManagerAction::CloseConnection(port),
        ManagerEvent::TaskEnded(None).action() == ManagerAction::Continue,
{
}

/// The manager is stopped by a cancellation or by the end of the connections,
/// and by nothing else.
pub proof fn law_manager_runs_until_it_is_stopped(run: ManagerRun, i: int)
    requires
        0 <= i <= run.events.len(),
    ensures
        run.reaches(i) <==> forall|j: int|
            0 <= j < i ==> (#[trigger] run.events[j]) != ManagerEvent::Cancelled && run.events[j]
                != ManagerEvent::NewConn(None),
{
}

/// The manager starts a task for a port on exactly the events that announce a
/// connection with that port, and closes a connection on exactly the events
/// that report its port, until it is stopped.
pub proof fn law_manager_starts_what_is_announced(run: ManagerRun, port: u16, i: int)
    ensures
        ({
            let runs = 0 <= i < run.events.len() && forall|j: int|
                0 <= j < i ==> (#[trigger] run.events[j]) != ManagerEvent::Cancelled
                    && run.events[j] != ManagerEvent::NewConn(None);
            &&& run.starts(port).contains(i) <==> runs && (run.events[i] matches
                ManagerEvent::NewConn(Some(conn)) && conn.proxy_port == port)
            &&& run.closes(port).contains(i) <==> runs && run.events[i]
                == ManagerEvent::TaskEnded(Some(port))
        }),
{
    if 0 <= i <= run.events.len() {
        law_manager_runs_until_it_is_stopped(run, i);
    }
}

/// A packet has the source address of its IPv4 header, and the ports and the
/// flags of its TCP header.
pub proof fn law_packet_is_read_from_its_headers(ipv4_hdr: Ipv4Header, tcp_hdr: TcpHeader)
    ensures
        Packet::of(ipv4_hdr, tcp_hdr).src_ip == ipv4_hdr.src_addr,
        Packet::of(ipv4_hdr, tcp_hdr).src_port == tcp_hdr.source,
        Packet::of(ipv4_hdr, tcp_hdr).dst_port == tcp_hdr.dest,
        Packet::of(ipv4_hdr, tcp_hdr).flags == tcp_hdr.offset_and_flags[1],
{
}

/// Packets of a client with a connection go to the backend of its entry, from
/// its proxy port, on the channel of its entry. Those of another client have
/// no address.
pub proof fn law_address_of_the_backend(table: NatState, key: ClientKey)
    ensures
        table.backend_address(key) is Some <==> table.clients.contains_key(key),
        table.clients.contains_key(key) ==> {
            let port = table.clients[key];
            let (addr, tx) = table.backend_address(key)->0;
            &&& addr.origin_port == port
            &&& addr.dest_ip == table.entries[port].destination_ip
            &&& addr.dest_port == table.entries[port].destination_port
            &&& tx == table.entries[port].tx_flag
        },
{
}

/// Packets to a proxy port in use go to the client of its entry, from the
/// port that the client had sent to, on the channel of its entry. Those to
/// another port have no address.
pub proof fn law_address_of_the_client(table: NatState, port: u16)
    ensures
        table.client_address(port) is Some <==> table.entries.contains_key(port),
        table.entries.contains_key(port) ==> {
            let (addr, tx) = table.client_address(port)->0;
            &&& addr.origin_port == table.entries[port].client_dst_port
            &&& addr.dest_ip == table.entries[port].client_ip
            &&& addr.dest_port == table.entries[port].client_port
            &&& tx == table.entries[port].tx_flag
        },
{
}

/// By the table alone, a packet of the server side goes to the client under
/// its destination port, announced with its flags, or nowhere.
pub proof fn law_known_route_of_a_server_packet(packet: Packet, table: NatState)
    ensures
        packet.known_route(table, PacketOrigin::Server) == Some(
            if table.entries.contains_key(packet.dst_port) {
                let entry = table.entries[packet.dst_port];
                Routing::Forward {
                    addr: RedirectionAddress {
                        origin_port: entry.client_dst_port,
                        dest_ip: entry.client_ip,
                        dest_port: entry.client_port,
                    },
                    tx: entry.tx_flag,
                    update: TcpUpdateState { flags: packet.flags, origin: PacketOrigin::Server },
                }
            } else {
                Routing::Discard
            },
        ),
{
}

/// By the table alone, a packet of the client side goes from the proxy port
/// of its source address to the backend, announced with its flags. A client
/// without a connection is not known.
pub proof fn law_known_route_of_a_client_packet(packet: Packet, table: NatState)
    ensures
        ({
            let key = ClientKey { client_ip: packet.src_ip, client_port: packet.src_port };
            packet.known_route(table, PacketOrigin::Client) == if table.clients.contains_key(key) {
                let port = table.clients[key];
                let entry = table.entries[port];
                Some(
                    Routing::Forward {
                        addr: RedirectionAddress {
                            origin_port: port,
                            dest_ip: entry.destination_ip,
                            dest_port: entry.destination_port,
                        },
                        tx: entry.tx_flag,
                        update: TcpUpdateState {
                            flags: packet.flags,
                            origin: PacketOrigin::Client,
                        },
                    },
                )
            } else {
                None
            }
        }),
{
}

/// Why a packet opens no connection, in this order: it has no SYN, there is
/// no backend, no port is free, its client or the port is in use. Only a
/// packet that takes a port out of the pool changes the table, and then
/// nothing but the pool.
pub proof fn law_packet_that_opens_nothing(
    packet: Packet,
    before: NatState,
    after: NatState,
    chosen: Option<([u8; 4], u16)>,
    result: Result<NewConnection, NewConnectionError>,
)
    requires
        packet.open_outcome(before, after, chosen, result),
    ensures
        ({
            let in_use = before.clients.contains_key(
                ClientKey { client_ip: packet.src_ip, client_port: packet.src_port },
            ) || before.entries.contains_key(before.pool.free.last());
            &&& packet.flags & SYN == 0 ==> {
                &&& result == Err::<NewConnection, NewConnectionError>(NewConnectionError::NotSyn)
                &&& after == before
            }
            &&& packet.flags & SYN != 0 && chosen is None ==> {
                &&& result == Err::<NewConnection, NewConnectionError>(
                    NewConnectionError::NoBackend,
                )
                &&& after == before
            }
            &&& packet.flags & SYN != 0 && chosen is Some && before.pool.free.len() == 0 ==> {
                &&& result == Err::<NewConnection, NewConnectionError>(
                    NewConnectionError::NatTable {
                        backend: chosen->0,
                        error: NatTableError::NoAvailablePorts,
                    },
                )
                &&& after == before
            }
            &&& packet.flags & SYN != 0 && chosen is Some && before.pool.free.len() > 0 && in_use
                ==> {
                &&& result == Err::<NewConnection, NewConnectionError>(
                    NewConnectionError::NatTable {
                        backend: chosen->0,
                        error: NatTableError::NatEntryAlreadyExists,
                    },
                )
                &&& after.entries == before.entries
                &&& after.clients == before.clients
                &&& after.pool.free == before.pool.free.drop_last()
                &&& after.pool.capacity == before.pool.capacity
            }
            &&& packet.flags & SYN != 0 && chosen is Some && before.pool.free.len() > 0 && !in_use
                ==> result is Ok
        }),
{
}

/// A packet that opened a connection goes from the free port that came in
/// last to the backend that was chosen. The manager is told of the port and
/// of the flags, with a receiver on the channel of the new entry. The entry
/// holds the addresses of the packet and of the backend, and is all that the
/// table gained.
pub proof fn law_packet_that_opens_a_connection(
    packet: Packet,
    before: NatState,
    after: NatState,
    chosen: Option<([u8; 4], u16)>,
    connection: NewConnection,
)
    requires
        packet.open_outcome(before, after, chosen, Ok(connection)),
    ensures
        packet.flags & SYN != 0,
        chosen is Some,
        before.pool.free.len() > 0,
        ({
            let port = before.pool.free.last();
            let entry = after.entries[port];
            &&& connection.addr.origin_port == port
            &&& connection.addr.dest_ip == (chosen->0).0
            &&& connection.addr.dest_port == (chosen->0).1
            &&& connection.event.proxy_port == port
            &&& connection.event.flags == packet.flags
            &&& sending_half(connection.event.rx_flag) == entry.tx_flag
            &&& entry.client_ip == packet.src_ip
            &&& entry.client_port == packet.src_port
            &&& entry.client_dst_port == packet.dst_port
            &&& entry.destination_ip == (chosen->0).0
            &&& entry.destination_port == (chosen->0).1
            &&& initial_update(entry.tx_flag).flags == SYN
            &&& initial_update(entry.tx_flag).origin == PacketOrigin::Client
            &&& forall|other: u16| #[trigger]
                before.entries.contains_key(other) ==> before.entries[other].tx_flag
                    != entry.tx_flag
            &&& after.entries == before.entries.insert(port, entry)
            &&& after.clients == before.clients.insert(
                ClientKey { client_ip: packet.src_ip, client_port: packet.src_port },
                port,
            )
            &&& after.pool.free == before.pool.free.drop_last()
            &&& after.pool.capacity == before.pool.capacity
        }),
{
}

/// After a packet opened a connection, what a backend answers to its proxy
/// port goes back to the source of the packet, from the port that the packet
/// was sent to, and is announced to the task that was told of the connection.
pub proof fn law_answer_reverses_the_first_packet(
    packet: Packet,
    before: NatState,
    after: NatState,
    chosen: Option<([u8; 4], u16)>,
    connection: NewConnection,
    answer: Packet,
)
    requires
        packet.open_outcome(before, after, chosen, Ok(connection)),
        answer.dst_port == connection.addr.origin_port,
    ensures
        after.client_address(connection.addr.origin_port) == Some(
            (
                RedirectionAddress {
                    origin_port: packet.dst_port,
                    dest_ip: packet.src_ip,
                    dest_port: packet.src_port,
                },
                sending_half(connection.event.rx_flag),
            ),
        ),
        answer.known_route(after, PacketOrigin::Server) == Some(
            Routing::Forward {
                addr: RedirectionAddress {
                    origin_port: packet.dst_port,
                    dest_ip: packet.src_ip,
                    dest_port: packet.src_port,
                },
                tx: sending_half(connection.event.rx_flag),
                update: TcpUpdateState { flags: answer.flags, origin: PacketOrigin::Server },
            },
        ),
{
}

/// Opening a connection asks the selector for a backend, for every packet,
/// and goes by its answer.
pub proof fn law_new_connection_goes_by_the_selector<T: NatTableManager, B: BackendSelector>(
    before: AddressProvider<T, B>,
    after: AddressProvider<T, B>,
    packet: Packet,
    result: Result<NewConnection, NewConnectionError>,
)
    requires
        before.new_connection_outcome(after, packet, result),
    ensures
        exists|chosen: Option<([u8; 4], u16)>|
            {
                &&& #[trigger] before.backends.may_select(&after.backends, chosen)
                &&& packet.open_outcome(
                    before.nat_table.state(),
                    after.nat_table.state(),
                    chosen,
                    result,
                )
            },
{
}

/// Whatever its flags, a packet is routed by what the selector says of its
/// source address. If that is a backend, the packet goes to the client under
/// its destination port, announced as one of the server, or nowhere. If it is
/// not, and the source has a connection, the packet goes to the backend of
/// that connection, announced as one of the client. Neither changes anything.
/// If the source has no connection, one is tried, and the packet goes on if
/// and only if that succeeds.
pub proof fn law_packet_is_routed_by_its_source<T: NatTableManager, B: BackendSelector>(
    before: AddressProvider<T, B>,
    after: AddressProvider<T, B>,
    packet: Packet,
    routing: Routing,
)
    requires
        before.routing_outcome(after, packet, routing),
    ensures
        exists|found: bool|
            {
                let table = before.nat_table.state();
                let key = ClientKey { client_ip: packet.src_ip, client_port: packet.src_port };
                &&& #[trigger] before.backends.may_exist(packet.src_ip, packet.src_port, found)
                &&& found && table.entries.contains_key(packet.dst_port) ==> {
                    let entry = table.entries[packet.dst_port];
                    &&& after == before
                    &&& routing == (Routing::Forward {
                        addr: RedirectionAddress {
                            origin_port: entry.client_dst_port,
                            dest_ip: entry.client_ip,
                            dest_port: entry.client_port,
                        },
                        tx: entry.tx_flag,
                        update: TcpUpdateState {
                            flags: packet.flags,
                            origin: PacketOrigin::Server,
                        },
                    })
                }
                &&& found && !table.entries.contains_key(packet.dst_port) ==> {
                    &&& after == before
                    &&& routing == Routing::Discard
                }
                &&& !found && table.clients.contains_key(key) ==> {
                    let port = table.clients[key];
                    let entry = table.entries[port];
                    &&& after == before
                    &&& routing == (Routing::Forward {
                        addr: RedirectionAddress {
                            origin_port: port,
                            dest_ip: entry.destination_ip,
                            dest_port: entry.destination_port,
                        },
                        tx: entry.tx_flag,
                        update: TcpUpdateState {
                            flags: packet.flags,
                            origin: PacketOrigin::Client,
                        },
                    })
                }
                &&& !found && !table.clients.contains_key(key) ==> exists|
                    chosen: Option<([u8; 4], u16)>,
                    result: Result<NewConnection, NewConnectionError>,
                |
                    {
                        &&& before.backends.may_select(&after.backends, chosen)
                        &&& #[trigger] packet.open_outcome(
                            table,
                            after.nat_table.state(),
                            chosen,
                            result,
                        )
                        &&& result is Ok ==> routing == Routing::Open(result->Ok_0)
                        &&& result is Err ==> routing == Routing::Refuse(result->Err_0)
                    }
            },
{
    let table = before.nat_table.state();
    let next = after.nat_table.state();
    let key = ClientKey { client_ip: packet.src_ip, client_port: packet.src_port };
    let origin = choose|origin: PacketOrigin| #[trigger]
        before.may_originate(packet, origin) && before.routing_outcome_from(
            origin,
            after,
            packet,
            routing,
        );
    let found = origin == PacketOrigin::Server;
    assert(before.backends.may_exist(packet.src_ip, packet.src_port, found));
    law_known_route_of_a_server_packet(packet, table);
    law_known_route_of_a_client_packet(packet, table);
    if !found && !table.clients.contains_key(key) {
        let result = match routing {
            Routing::Open(connection) => Ok::<NewConnection, NewConnectionError>(connection),
            Routing::Refuse(error) => Err::<NewConnection, NewConnectionError>(error),
            _ => arbitrary(),
        };
        assert(before.new_connection_outcome(after, packet, result));
        let chosen = choose|chosen: Option<([u8; 4], u16)>| #[trigger]
            before.backends.may_select(&after.backends, chosen) && packet.open_outcome(
                table,
                next,
                chosen,
                result,
            );
        assert(packet.open_outcome(table, next, chosen, result));
    }
}

} // verus!
