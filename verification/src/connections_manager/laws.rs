//! What holds of the pool, the table, the routing and the state machine as a
//! whole.
use vstd::prelude::*;

use crate::connections_balancer::BackendSelector;
use crate::connections_manager::address_provider::{
    AddressProvider, NewConnection, NewConnectionError, Packet, RedirectionAddress, Routing,
};
use crate::connections_manager::channel::sending_half;
use crate::connections_manager::nat_table::{
    ClientKey, ConnRequest, NatEntry, NatState, NatTableError, NatTableManager,
};
use crate::connections_manager::ports_pool::{ByteOrder, PoolState};
use crate::connections_manager::tcp_state::{
    carries, Halves, PacketOrigin, CONNECTION_TIMEOUT_SECS,
};
use crate::connections_manager::tcp_state_manager::{
    ManagerAction, ManagerEvent, ManagerRun, TcpAction, TcpEvent, TcpStateManager,
};
use crate::HalfState;
use crate::TcpFlags::{ACK, FIN, RST, SYN};

verus! {

/// Converting a port to big endian twice gives the port back.
pub proof fn law_big_endian_is_an_involution(order: ByteOrder, port: u16)
    ensures
        order.big_endian(order.big_endian(port)) == port,
{
}

/// A new pool holds each port of its range once, and no other port.
pub proof fn law_new_pool_holds_its_range(min_port: u16, max_port: u16, order: ByteOrder)
    requires
        min_port <= max_port,
    ensures
        PoolState::full(min_port, max_port, order).free.len() == max_port - min_port + 1,
        PoolState::full(min_port, max_port, order).free.no_duplicates(),
        forall|port: u16|
            min_port <= port <= max_port <==> #[trigger] PoolState::full(
                min_port,
                max_port,
                order,
            ).free.contains(order.big_endian(port)),
{
    let free = PoolState::full(min_port, max_port, order).free;
    assert forall|i: int, j: int|
        0 <= i < free.len() && 0 <= j < free.len() && i != j implies free[i] != free[j] by {
        law_big_endian_is_an_involution(order, (min_port + i) as u16);
        law_big_endian_is_an_involution(order, (min_port + j) as u16);
    }
    assert forall|port: u16| min_port <= port <= max_port <==> #[trigger] free.contains(
        order.big_endian(port),
    ) by {
        if min_port <= port <= max_port {
            assert(free[port - min_port] == order.big_endian(port));
        }
        if free.contains(order.big_endian(port)) {
            let i = choose|i: int| 0 <= i < free.len() && free[i] == order.big_endian(port);
            law_big_endian_is_an_involution(order, port);
            law_big_endian_is_an_involution(order, (min_port + i) as u16);
        }
    }
}

/// A port that was taken is not handed out again before it is given back, as
/// long as no port is in the pool twice.
pub proof fn law_taken_port_is_out(pool: PoolState)
    requires
        pool.free.len() > 0,
        pool.free.no_duplicates(),
    ensures
        !pool.taken().free.contains(pool.next()->0),
        pool.taken().free.no_duplicates(),
{
    let rest = pool.taken().free;
    if rest.contains(pool.free.last()) {
        let i = choose|i: int| 0 <= i < rest.len() && rest[i] == pool.free.last();
        assert(pool.free[i] == pool.free[pool.free.len() - 1]);
    }
}

/// Giving back the port that was taken last restores the pool.
pub proof fn law_release_undoes_take(pool: PoolState)
    requires
        0 < pool.free.len() <= pool.capacity,
    ensures
        pool.taken().released(pool.next()->0) == pool,
{
    assert(pool.taken().released(pool.next()->0).free =~= pool.free);
}

/// A port that was given back is the next one to be handed out, unless the
/// pool was full.
pub proof fn law_take_undoes_release(pool: PoolState, port: u16)
    requires
        pool.free.len() < pool.capacity,
    ensures
        pool.released(port).next() == Some(port),
        pool.released(port).taken() == pool,
{
    assert(pool.released(port).taken().free =~= pool.free);
}

/// Opening, refusing and closing connections keep a table consistent.
pub proof fn law_consistency_is_kept(
    table: NatState,
    request: ConnRequest,
    entry: NatEntry,
    port: u16,
)
    requires
        table.consistent(),
    ensures
        table.refused().consistent(),
        table.refusal(request.client()) is None && request.granted(entry)
            && table.channel_is_new(entry.tx_flag) ==> table.opened(
            table.pool.free.last(),
            entry,
        ).consistent(),
        table.entries.contains_key(port) ==> table.closed(port).consistent(),
{
    if table.refusal(request.client()) is None && request.granted(entry) {
        assert(entry.client() == request.client());
    }
}

/// A connection that was opened is found by its client and by its proxy
/// port. No other connection is touched.
pub proof fn law_opened_connection_is_found(table: NatState, port: u16, entry: NatEntry)
    ensures
        table.opened(port, entry).port_of(entry.client()) == Some(port),
        table.opened(port, entry).entry(port) == Some(entry),
        forall|key: ClientKey|
            key != entry.client() ==> #[trigger] table.opened(port, entry).port_of(key)
                == table.port_of(key),
        forall|other: u16|
            other != port ==> #[trigger] table.opened(port, entry).entry(other) == table.entry(
                other,
            ),
{
}

/// A connection that was closed is found no more, neither by its client nor
/// by its proxy port. No other connection is touched.
pub proof fn law_closed_connection_is_gone(table: NatState, port: u16)
    requires
        table.consistent(),
        table.entries.contains_key(port),
    ensures
        table.closed(port).entry(port) is None,
        table.closed(port).port_of(table.entries[port].client()) is None,
        forall|key: ClientKey|
            key != table.entries[port].client() ==> #[trigger] table.closed(port).port_of(key)
                == table.port_of(key),
        forall|other: u16|
            other != port ==> #[trigger] table.closed(port).entry(other) == table.entry(other),
{
}

/// Closing a connection at once undoes opening it, down to the order of the
/// pool.
pub proof fn law_close_undoes_open(table: NatState, request: ConnRequest, entry: NatEntry)
    requires
        table.consistent(),
        table.refusal(request.client()) is None,
        request.granted(entry),
    ensures
        table.opened(table.pool.free.last(), entry).closed(table.pool.free.last()) == table,
{
    let port = table.pool.free.last();
    assert(entry.client() == request.client());
    law_release_undoes_take(table.pool);
    assert(table.opened(port, entry).closed(port) =~= table);
}

/// A refused request leaves every connection as it was. It costs a port
/// unless there was none.
pub proof fn law_refusal_touches_no_connection(table: NatState)
    ensures
        table.refused().entries == table.entries,
        table.refused().clients == table.clients,
        table.pool.next() is None ==> table.refused() == table,
        table.pool.next() is Some ==> table.refused().pool.free.len() == table.pool.free.len() - 1,
{
}

/// The port of a connection that is closed always goes back to the pool, on
/// top.
pub proof fn law_closing_frees_the_port(table: NatState, port: u16)
    requires
        table.consistent(),
        table.entries.contains_key(port),
    ensures
        table.closed(port).pool.free == table.pool.free.push(port),
        table.closed(port).pool.next() == Some(port),
{
    assert(table.entries.dom().contains(port));
    if table.entries.dom().len() == 0 {
        assert(table.entries.dom() =~= Set::empty());
    }
}

/// Opening and closing keep the number of ports that are free or in use.
pub proof fn law_ports_are_conserved(
    table: NatState,
    request: ConnRequest,
    entry: NatEntry,
    port: u16,
)
    requires
        table.consistent(),
    ensures
        table.refusal(request.client()) is None && request.granted(entry) ==> {
            let after = table.opened(table.pool.free.last(), entry);
            &&& after.entries.len() == table.entries.len() + 1
            &&& after.pool.free.len() == table.pool.free.len() - 1
        },
        table.entries.contains_key(port) ==> {
            let after = table.closed(port);
            &&& after.entries.len() == table.entries.len() - 1
            &&& after.pool.free.len() == table.pool.free.len() + 1
        },
{
    if table.entries.contains_key(port) {
        law_closing_frees_the_port(table, port);
    }
}

/// No two connections share a channel, so that what is announced of one
/// reaches the task of that one alone.
pub proof fn law_connections_have_channels_of_their_own(table: NatState, one: u16, other: u16)
    requires
        table.consistent(),
        table.entries.contains_key(one),
        table.entries.contains_key(other),
        one != other,
    ensures
        table.entries[one].tx_flag != table.entries[other].tx_flag,
        (table.client_address(one)->0).1 != (table.client_address(other)->0).1,
{
}

/// No two clients share a proxy port.
pub proof fn law_clients_have_ports_of_their_own(table: NatState, one: ClientKey, other: ClientKey)
    requires
        table.consistent(),
        table.clients.contains_key(one),
        table.clients.contains_key(other),
        one != other,
    ensures
        table.clients[one] != table.clients[other],
{
}

/// A table with a new pool has unique ports.
pub proof fn law_fresh_table_has_unique_ports(min_port: u16, max_port: u16, order: ByteOrder)
    requires
        min_port <= max_port,
    ensures
        NatState::fresh(PoolState::full(min_port, max_port, order)).ports_unique(),
{
    law_new_pool_holds_its_range(min_port, max_port, order);
}

/// Opening, refusing and closing connections keep the ports unique.
pub proof fn law_uniqueness_is_kept(table: NatState, entry: NatEntry, port: u16)
    requires
        table.consistent(),
        table.ports_unique(),
    ensures
        table.refused().ports_unique(),
        table.pool.next() is Some ==> table.opened(table.pool.free.last(), entry).ports_unique(),
        table.entries.contains_key(port) ==> table.closed(port).ports_unique(),
{
    let free = table.pool.free;
    let taken = table.pool.taken().free;
    assert forall|p: u16| #[trigger] taken.contains(p) implies free.contains(p) by {
        let i = choose|i: int| 0 <= i < taken.len() && taken[i] == p;
        assert(free[i] == p);
    }
    if table.pool.next() is Some {
        law_taken_port_is_out(table.pool);
    }
    if table.entries.contains_key(port) {
        law_closing_frees_the_port(table, port);
        let after = table.closed(port);
        assert forall|p: u16| #[trigger]
            after.entries.contains_key(p) implies !after.pool.free.contains(p) by {
            assert(table.entries.contains_key(p));
            if after.pool.free.contains(p) {
                let i = choose|i: int|
                    0 <= i < after.pool.free.len() && after.pool.free[i] == p;
                assert(i < free.len());
                assert(free[i] == p);
            }
        }
        assert forall|i: int, j: int|
            0 <= i < after.pool.free.len() && 0 <= j < after.pool.free.len() && i
                != j implies after.pool.free[i] != after.pool.free[j] by {
            assert(!free.contains(port));
            if i == free.len() {
                assert(free[j] != port);
            } else if j == free.len() {
                assert(free[i] != port);
            }
        }
    }
}

/// While ports are unique, a client is refused only if no port is free or if
/// it has a connection.
pub proof fn law_free_port_and_new_client_suffice(table: NatState, client: ClientKey)
    requires
        table.ports_unique(),
    ensures
        table.refusal(client) == if table.pool.free.len() == 0 {
            Some(NatTableError::NoAvailablePorts)
        } else if table.clients.contains_key(client) {
            Some(NatTableError::NatEntryAlreadyExists)
        } else {
            None
        },
{
    if table.pool.free.len() > 0 {
        assert(table.pool.free.contains(table.pool.free.last()));
    }
}

/// The two directions of a connection undo each other: what a backend
/// answers to the port that stands for a client goes to that client, with
/// the port that the client had sent to, and is announced on the same
/// channel.
pub proof fn law_answers_come_back_to_the_client(table: NatState, client: ClientKey)
    requires
        table.consistent(),
        table.clients.contains_key(client),
    ensures
        ({
            let (addr, tx) = table.backend_address(client)->0;
            table.client_address(addr.origin_port) == Some(
                (
                    RedirectionAddress {
                        origin_port: table.entries[addr.origin_port].client_dst_port,
                        dest_ip: client.client_ip,
                        dest_port: client.client_port,
                    },
                    tx,
                ),
            )
        }),
{
}

/// The packet that opened a connection goes where later packets of the same
/// client go, and these are announced to the task that was told of the
/// connection.
pub proof fn law_later_packets_follow_the_first(
    packet: Packet,
    before: NatState,
    after: NatState,
    chosen: Option<([u8; 4], u16)>,
    connection: NewConnection,
)
    requires
        packet.open_outcome(before, after, chosen, Ok(connection)),
    ensures
        after.backend_address(packet.client()) == Some(
            (
                connection.addr,
                sending_half(connection.event.rx_flag),
            ),
        ),
{
    let entry = after.entries[before.pool.free.last()];
    assert(entry.client() == packet.client());
}

/// Closing the connection that a packet opened, by the port that its task
/// reports, restores the table.
pub proof fn law_ended_task_leaves_no_trace(
    packet: Packet,
    before: NatState,
    after: NatState,
    chosen: Option<([u8; 4], u16)>,
    connection: NewConnection,
)
    requires
        before.consistent(),
        packet.open_outcome(before, after, chosen, Ok(connection)),
    ensures
        after.entries.contains_key(connection.event.proxy_port),
        after.closed(connection.event.proxy_port) == before,
{
    let entry = after.entries[before.pool.free.last()];
    law_close_undoes_open(before, packet.request(chosen->0), entry);
}

/// Opening a connection and announcing it asks the selector of backends
/// twice: first for a backend, then, once the connection is announced, to
/// count one more connection of the backend that it had chosen.
pub proof fn law_chosen_backend_counts_the_connection<T: NatTableManager, B: BackendSelector>(
    before: AddressProvider<T, B>,
    opened: AddressProvider<T, B>,
    after: AddressProvider<T, B>,
    packet: Packet,
    connection: NewConnection,
)
    requires
        before.new_connection_outcome(opened, packet, Ok(connection)),
        opened.backends.may_increase(
            connection.addr.dest_ip,
            connection.addr.dest_port,
            &after.backends,
        ),
    ensures
        exists|backend: ([u8; 4], u16)|
            {
                &&& #[trigger] before.backends.may_select(&opened.backends, Some(backend))
                &&& opened.backends.may_increase(backend.0, backend.1, &after.backends)
            },
{
    let chosen = choose|chosen: Option<([u8; 4], u16)>| #[trigger]
        before.backends.may_select(&opened.backends, chosen) && packet.open_outcome(
            before.nat_table.state(),
            opened.nat_table.state(),
            chosen,
            Ok(connection),
        );
    assert(before.backends.may_select(&opened.backends, Some(chosen->0)));
}

/// A packet of a client is sent on if and only if the client has a
/// connection once the packet is through.
pub proof fn law_client_packet_needs_a_connection(
    packet: Packet,
    before: NatState,
    after: NatState,
    chosen: Option<([u8; 4], u16)>,
    result: Result<NewConnection, NewConnectionError>,
)
    requires
        packet.known_route(before, PacketOrigin::Client) is None,
        packet.open_outcome(before, after, chosen, result),
    ensures
        result is Ok <==> after.clients.contains_key(packet.client()),
{
    if packet.open_error(before, chosen) is None {
        law_later_packets_follow_the_first(packet, before, after, chosen, result->Ok_0);
    }
}

/// The table alone sends a packet on if and only if the connection of the
/// packet is in it.
pub proof fn law_known_route_needs_a_connection(
    packet: Packet,
    table: NatState,
    origin: PacketOrigin,
)
    ensures
        (packet.known_route(table, origin) is Some && packet.known_route(
            table,
            origin,
        )->0.addr() is Some) <==> match origin {
            PacketOrigin::Client => table.clients.contains_key(packet.client()),
            PacketOrigin::Server => table.entries.contains_key(packet.dst_port),
        },
{
}

/// A packet is sent on if and only if its connection is in the table once
/// the packet is through. A packet of a connection that was there before, or
/// of a backend, changes nothing.
pub proof fn law_packet_needs_a_connection<T: NatTableManager, B: BackendSelector>(
    before: AddressProvider<T, B>,
    after: AddressProvider<T, B>,
    packet: Packet,
    routing: Routing,
)
    requires
        before.routing_outcome(after, packet, routing),
    ensures
        exists|origin: PacketOrigin|
            {
                &&& #[trigger] before.may_originate(packet, origin)
                &&& routing.addr() is Some <==> match origin {
                    PacketOrigin::Client => after.nat_table.state().clients.contains_key(
                        packet.client(),
                    ),
                    PacketOrigin::Server => after.nat_table.state().entries.contains_key(
                        packet.dst_port,
                    ),
                }
                &&& origin is Server || before.nat_table.state().clients.contains_key(
                    packet.client(),
                ) ==> after == before
            },
{
    let table = before.nat_table.state();
    let next = after.nat_table.state();
    let origin = choose|origin: PacketOrigin| #[trigger]
        before.may_originate(packet, origin) && before.routing_outcome_from(
            origin,
            after,
            packet,
            routing,
        );
    law_known_route_needs_a_connection(packet, table, origin);
    if packet.known_route(table, origin) is None {
        let result = match routing {
            Routing::Open(connection) => Ok(connection),
            Routing::Refuse(error) => Err(error),
            _ => arbitrary(),
        };
        let chosen = choose|chosen: Option<([u8; 4], u16)>| #[trigger]
            before.backends.may_select(&after.backends, chosen) && packet.open_outcome(
                table,
                next,
                chosen,
                result,
            );
        law_client_packet_needs_a_connection(packet, table, next, chosen, result);
    }
    assert(before.may_originate(packet, origin));
}

/// Only a packet with SYN changes the table.
pub proof fn law_only_syn_changes_the_table(
    packet: Packet,
    before: NatState,
    after: NatState,
    chosen: Option<([u8; 4], u16)>,
    result: Result<NewConnection, NewConnectionError>,
)
    requires
        packet.open_outcome(before, after, chosen, result),
        before != after,
    ensures
        carries(packet.flags, SYN),
        chosen is Some,
{
}

/// The first SYN of a client opens a connection whenever there is a backend
/// and a free port, while ports are unique.
pub proof fn law_first_syn_opens_a_connection(
    packet: Packet,
    before: NatState,
    after: NatState,
    chosen: Option<([u8; 4], u16)>,
    result: Result<NewConnection, NewConnectionError>,
)
    requires
        packet.known_route(before, PacketOrigin::Client) is None,
        packet.open_outcome(before, after, chosen, result),
        carries(packet.flags, SYN),
        chosen is Some,
        before.pool.free.len() > 0,
        before.ports_unique(),
    ensures
        result is Ok,
{
    law_free_port_and_new_client_suffice(before, packet.client());
}

/// A reset from either side resets both.
pub proof fn law_reset_reaches_both_sides(halves: Halves, flags: u8, origin: PacketOrigin)
    requires
        carries(flags, RST),
    ensures
        halves.after(flags, origin) == Halves::both(HalfState::RstSeen),
{
}

/// Only a reset brings a side into the reset state.
pub proof fn law_only_reset_resets(
    halves: Halves,
    flags: u8,
    origin: PacketOrigin,
    side: PacketOrigin,
)
    requires
        !carries(flags, RST),
        halves.of(side) != HalfState::RstSeen,
    ensures
        halves.after(flags, origin).of(side) != HalfState::RstSeen,
{
}

/// The handshake: once the client has sent SYN, SYN and ACK of the server
/// and then ACK of the client establish both sides.
pub proof fn law_handshake_establishes(halves: Halves, reply: u8, confirm: u8)
    requires
        halves.client == HalfState::SynSeen,
        !carries(reply, RST),
        carries(reply, SYN),
        carries(reply, ACK),
        !carries(confirm, RST),
        !carries(confirm, SYN),
        !carries(confirm, FIN),
        carries(confirm, ACK),
    ensures
        halves.after(reply, PacketOrigin::Server).after(confirm, PacketOrigin::Client)
            == Halves::both(HalfState::Established),
{
}

/// Nothing else establishes: a side becomes established only when both sides
/// have been seen to open and the client acknowledges.
pub proof fn law_only_handshake_establishes(
    halves: Halves,
    flags: u8,
    origin: PacketOrigin,
    side: PacketOrigin,
)
    requires
        halves.of(side) != HalfState::Established,
        halves.after(flags, origin).of(side) == HalfState::Established,
    ensures
        halves == Halves::both(HalfState::SynSeen),
        origin == PacketOrigin::Client,
        carries(flags, ACK),
        halves.after(flags, origin) == Halves::both(HalfState::Established),
{
}

/// A FIN of one side that the other acknowledges leaves the first closing,
/// and the other as it was.
pub proof fn law_acknowledged_fin_closes(halves: Halves, fin: u8, ack: u8, side: PacketOrigin)
    requires
        !carries(fin, RST),
        !carries(fin, SYN),
        carries(fin, FIN),
        !carries(ack, RST),
        !carries(ack, SYN),
        !carries(ack, FIN),
        carries(ack, ACK),
    ensures
        halves.after(fin, side).after(ack, side.peer()) == halves.with(side, HalfState::Closing),
{
}

/// A packet without RST, SYN, FIN and ACK changes no state.
pub proof fn law_plain_packet_changes_nothing(halves: Halves, flags: u8, origin: PacketOrigin)
    requires
        !carries(flags, RST),
        !carries(flags, SYN),
        !carries(flags, FIN),
        !carries(flags, ACK),
    ensures
        halves.after(flags, origin) == halves,
{
}

/// No packet brings a side into `Closed` or back into `Listen`.
pub proof fn law_closed_and_listen_are_never_entered(
    halves: Halves,
    flags: u8,
    origin: PacketOrigin,
    side: PacketOrigin,
    state: HalfState,
)
    requires
        state == HalfState::Closed || state == HalfState::Listen,
        halves.after(flags, origin).of(side) == state,
    ensures
        halves.of(side) == state,
{
}

/// Once the server side is closing, no packet moves a state and none
/// restarts the timer, so that the connection ends when the timer runs out.
pub proof fn law_closing_server_waits_for_the_timer(manager: TcpStateManager, event: TcpEvent)
    requires
        manager.server_state.state == HalfState::Closing,
    ensures
        manager.after(event).halves() == manager.halves(),
        manager.action(event) == if event is Update {
            TcpAction::KeepTimer
        } else {
            TcpAction::Finish { proxy_port: manager.proxy_port }
        },
{
}

/// The task of a connection that was not reset ends on a packet if and only
/// if the packet carries RST and the server side is not closing.
pub proof fn law_packet_ends_the_task_by_reset(manager: TcpStateManager, event: TcpEvent)
    requires
        event is Update,
        manager.halves().server != HalfState::RstSeen,
        manager.halves().client != HalfState::RstSeen,
    ensures
        manager.action(event) is Finish <==> (carries(
            event->update.flags,
            RST,
        ) && manager.server_state.state != HalfState::Closing),
{
    let update = event->update;
    if !carries(update.flags, RST) {
        law_only_reset_resets(manager.halves(), update.flags, update.origin, PacketOrigin::Client);
        law_only_reset_resets(manager.halves(), update.flags, update.origin, PacketOrigin::Server);
    }
}

/// A connection keeps its proxy port, and its task reports that port and no
/// other when it ends.
pub proof fn law_task_reports_its_own_port(manager: TcpStateManager, event: TcpEvent)
    ensures
        manager.after(event).proxy_port == manager.proxy_port,
        manager.action(event) matches TcpAction::Finish { proxy_port } ==> proxy_port
            == manager.proxy_port,
{
}

/// A packet is noted on the side that sent it and leaves what is noted of
/// the other side.
pub proof fn law_packet_is_noted_on_its_side(manager: TcpStateManager, event: TcpEvent)
    requires
        event is Update,
    ensures
        ({
            let after = manager.after(event);
            let (sender, receiver, peer) = match event->update.origin {
                PacketOrigin::Client => (
                    after.client_state,
                    after.server_state,
                    manager.server_state,
                ),
                PacketOrigin::Server => (
                    after.server_state,
                    after.client_state,
                    manager.client_state,
                ),
            };
            &&& sender.last_tcp_flags == event->update.flags
            &&& sender.last_seen == event->now
            &&& receiver.last_tcp_flags == peer.last_tcp_flags
            &&& receiver.last_seen == peer.last_seen
        }),
{
}

/// A packet restarts the timer, always for the time that a connection may
/// stay silent, if and only if it leaves no side reset and the server side
/// was not closing. Nothing else restarts it.
pub proof fn law_packet_restarts_the_timer(manager: TcpStateManager, event: TcpEvent)
    ensures
        manager.action(event) is RestartTimer <==> {
            &&& event is Update
            &&& manager.server_state.state != HalfState::Closing
            &&& manager.after(event).halves().server != HalfState::RstSeen
            &&& manager.after(event).halves().client != HalfState::RstSeen
        },
        manager.action(event) matches TcpAction::RestartTimer { seconds } ==> seconds
            == CONNECTION_TIMEOUT_SECS,
{
}

/// Whatever the events are that wake it, the task of a connection reports
/// nothing but the proxy port of that connection.
pub proof fn law_whole_run_of_a_task_reports_its_own_port(
    manager: TcpStateManager,
    events: Seq<TcpEvent>,
)
    ensures
        manager.report(events) is Some ==> manager.report(events) == Some(manager.proxy_port),
    decreases events.len(),
{
    if events.len() > 0 {
        law_whole_run_of_a_task_reports_its_own_port(
            manager.after(events.first()),
            events.drop_first(),
        );
    }
}

/// A timeout or a cancellation ends a task that still waits, whatever came
/// before.
pub proof fn law_timeout_and_cancellation_end_the_task(
    manager: TcpStateManager,
    events: Seq<TcpEvent>,
    last: TcpEvent,
)
    requires
        !(last is Update),
    ensures
        manager.report(events.push(last)) == Some(manager.proxy_port),
    decreases events.len(),
{
    if events.len() > 0 {
        assert(events.push(last).drop_first() =~= events.drop_first().push(last));
        law_timeout_and_cancellation_end_the_task(
            manager.after(events.first()),
            events.drop_first(),
            last,
        );
    }
}

/// While it runs, the manager closes the connection of a port on each report
/// of that port and on nothing else, so as often as the port is reported.
pub proof fn law_manager_closes_what_is_reported(run: ManagerRun, port: u16)
    ensures
        run.closes(port) == run.ends(port),
        run.closes(port).len() == run.ends(port).len(),
        run.closes(port).finite(),
{
    assert(run.closes(port) =~= run.ends(port));
    vstd::set_lib::lemma_int_range(0, run.events.len() as int);
    assert(run.closes(port).subset_of(vstd::set_lib::set_int_range(0, run.events.len() as int)));
    vstd::set_lib::lemma_len_subset(
        run.closes(port),
        vstd::set_lib::set_int_range(0, run.events.len() as int),
    );
}

/// Neither a report nor a failed task stops the manager.
pub proof fn law_end_of_a_task_does_not_stop_the_manager(run: ManagerRun, i: int)
    requires
        run.reaches(i),
        i < run.events.len(),
        run.events[i] is TaskEnded,
    ensures
        run.reaches(i + 1),
{
}

/// A connection that the manager was told of is closed once when its task
/// has reported, under its own port, and by no other report.
pub proof fn law_connection_is_closed_once(run: ManagerRun, task: spec_fn(int) -> int, end: int)
    requires
        run.reports_come_from_tasks(task),
        run.is_report(end),
        run.reaches(end),
    ensures
        run.action(task(end)) matches Some(ManagerAction::Spawn(conn)) && run.action(end) == Some(
            ManagerAction::CloseConnection(conn.proxy_port),
        ),
        forall|i: int|
            #![trigger run.is_report(i)]
            run.is_report(i) && task(i) == task(end) ==> i == end,
{
    lemma_report_is_of_its_connection(run, end, task(end));
}

/// The manager closes the connection of a port no more often than it was
/// told of a connection with that port, and so never closes a port that it
/// was not told of.
pub proof fn law_no_port_is_closed_more_often_than_received(
    run: ManagerRun,
    task: spec_fn(int) -> int,
    port: u16,
)
    requires
        run.reports_come_from_tasks(task),
    ensures
        run.closes(port).len() <= run.starts(port).len(),
        run.closes(port).len() > 0 ==> run.starts(port).len() > 0,
{
    let closes = run.closes(port);
    let starts = run.starts(port);
    let all = vstd::set_lib::set_int_range(0, run.events.len() as int);
    law_manager_closes_what_is_reported(run, port);
    vstd::set_lib::lemma_int_range(0, run.events.len() as int);
    assert(starts.subset_of(all));
    vstd::set_lib::lemma_len_subset(starts, all);
    assert forall|i: int| #[trigger] closes.contains(i) implies starts.contains(task(i)) by {
        assert(run.is_report(i));
        lemma_report_is_of_its_connection(run, i, task(i));
    }
    assert forall|i: int, j: int|
        closes.contains(i) && closes.contains(j) && i != j implies task(i) != task(j) by {
        assert(run.is_report(i) && run.is_report(j));
    }
    lemma_injection_bounds_size(closes, starts, task);
}

/// A report names the port of the connection whose task it comes from.
proof fn lemma_report_is_of_its_connection(run: ManagerRun, i: int, start: int)
    requires
        run.is_report_of(i, start),
    ensures
        run.action(start) matches Some(ManagerAction::Spawn(conn)) && run.events[i]
            == ManagerEvent::TaskEnded(Some(conn.proxy_port)),
{
    let conn = run.action(start)->0->Spawn_0;
    let port = run.events[i]->TaskEnded_0->0;
    let (server_seen, client_seen, woken_by) = choose|
        server_seen: tokio::time::Instant,
        client_seen: tokio::time::Instant,
        woken_by: Seq<TcpEvent>,
    | #[trigger]
        TcpStateManager::started(conn, server_seen, client_seen).report(woken_by) == Some(port);
    law_whole_run_of_a_task_reports_its_own_port(
        TcpStateManager::started(conn, server_seen, client_seen),
        woken_by,
    );
}

/// A set that maps into another without two elements meeting is no larger.
proof fn lemma_injection_bounds_size(from: Set<int>, into: Set<int>, map: spec_fn(int) -> int)
    requires
        from.finite(),
        into.finite(),
        forall|i: int| #[trigger] from.contains(i) ==> into.contains(map(i)),
        forall|i: int, j: int|
            #![trigger from.contains(i), from.contains(j)]
            from.contains(i) && from.contains(j) && i != j ==> map(i) != map(j),
    ensures
        from.len() <= into.len(),
    decreases from.len(),
{
    if from.len() > 0 {
        let i = from.choose();
        assert(from.contains(i));
        lemma_injection_bounds_size(from.remove(i), into.remove(map(i)), map);
    }
}

} // verus!
