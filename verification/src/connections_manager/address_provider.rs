//! Where a packet goes.
//!
//! A packet of a known connection is routed by the NAT table alone
//! (`known_route`). For a client without a connection a backend is chosen,
//! and a connection to it is opened (`open_connection`). What is to be
//! announced to the tasks that watch the connections is handed back to the
//! caller, as part of a `Routing`. Once a new connection is announced, it
//! counts as one of its backend (`connection_announced`).
use network_types::bitfield::BitfieldUnit;
use tokio::sync::watch::Sender;
use vstd::prelude::*;

use crate::connections_balancer::BackendSelector;
use crate::connections_manager::channel::{clone_sender, sending_half, subscribe};
use crate::connections_manager::nat_table::{
    ClientKey, ConnRequest, NatState, NatTableError, NatTableManager,
};
use crate::connections_manager::tcp_state::{carries, PacketOrigin, TcpUpdateState};
use crate::connections_manager::tcp_state_manager::TcpNewConn;
use crate::TcpFlags::SYN;

verus! {

/// The new addresses of a packet.
#[derive(Debug)]
pub struct RedirectionAddress {
    /// The port that the packet comes from.
    pub origin_port: u16,
    /// The address that the packet goes to.
    pub dest_ip: [u8; 4],
    pub dest_port: u16,
}

/// What routing reads of an IPv4 header.
#[derive(Debug, Clone, Copy)]
pub struct Ipv4Header {
    pub src_addr: [u8; 4],
}

/// What routing reads of a TCP header. Ports are as the packet has them, in
/// big endian.
#[derive(Debug, Clone, Copy)]
pub struct TcpHeader {
    pub source: u16,
    pub dest: u16,
    /// The two bytes behind the acknowledgment number: the data offset, then
    /// the flags.
    pub offset_and_flags: [u8; 2],
}

/// Calls `network_types::bitfield::BitfieldUnit::get` for the eight bits of
/// one of the two bytes: they are that byte, whatever the byte order of the
/// machine.
#[verifier::external_body]
fn get_bits(bytes: [u8; 2], bit_offset: usize, bit_width: u8) -> (bits: u64)
    requires
        bit_offset == 0 || bit_offset == 8,
        bit_width == 8,
    ensures
        bits == bytes[bit_offset as int / 8],
{
    BitfieldUnit::new(bytes).get(bit_offset, bit_width)
}

impl TcpHeader {
    /// Returns the flags byte.
    pub fn flags(&self) -> (flags: u8)
        ensures
            flags == self.offset_and_flags[1],
    {
        get_bits(self.offset_and_flags, 8, 8) as u8
    }
}

/// What becomes of a packet.
pub enum Routing {
    /// The packet belongs to a connection: announce `update` through `tx`,
    /// then send the packet on with the addresses `addr`.
    Forward { addr: RedirectionAddress, tx: Sender<TcpUpdateState>, update: TcpUpdateState },
    /// The packet opened a connection: tell the manager of the connections,
    /// call `connection_announced`, then send the packet on.
    Open(NewConnection),
    /// The packet of a client has no connection and opened none.
    Refuse(NewConnectionError),
    /// The packet of a backend belongs to no connection.
    Discard,
}

impl Routing {
    /// The new addresses of the packet; `None` if it goes nowhere.
    pub open spec fn addr(self) -> Option<RedirectionAddress> {
        match self {
            Routing::Forward { addr, .. } => Some(addr),
            Routing::Open(connection) => Some(connection.addr),
            Routing::Refuse(_) => None,
            Routing::Discard => None,
        }
    }
}

impl Routing {
    /// Says what becomes of the packet of a client without a connection,
    /// after one was tried.
    pub fn attempted(result: Result<NewConnection, NewConnectionError>) -> (routing: Routing)
        ensures
            routing == match result {
                Ok(connection) => Routing::Open(connection),
                Err(error) => Routing::Refuse(error),
            },
    {
        match result {
            Ok(connection) => Routing::Open(connection),
            Err(error) => Routing::Refuse(error),
        }
    }
}

/// A connection that was opened for a packet.
pub struct NewConnection {
    /// The new addresses of the packet. It goes to the backend.
    pub addr: RedirectionAddress,
    /// What the manager of the connections is to be told.
    pub event: TcpNewConn,
}

/// Why no connection was opened for a packet.
#[derive(Debug, PartialEq, Eq, Clone, Copy)]
pub enum NewConnectionError {
    /// The packet does not open a connection.
    NotSyn,
    /// There is no backend to connect to.
    NoBackend,
    /// The NAT table refused a connection to the backend that was chosen.
    NatTable { backend: ([u8; 4], u16), error: NatTableError },
}

/// A packet, as far as its routing goes.
pub struct Packet {
    pub src_ip: [u8; 4],
    pub src_port: u16,
    pub dst_port: u16,
    pub flags: u8,
}

impl Packet {
    /// The packet with the given headers.
    pub open spec fn of(ipv4_hdr: Ipv4Header, tcp_hdr: TcpHeader) -> Packet {
        Packet {
            src_ip: ipv4_hdr.src_addr,
            src_port: tcp_hdr.source,
            dst_port: tcp_hdr.dest,
            flags: tcp_hdr.offset_and_flags[1],
        }
    }

    /// The client that sent the packet, if a client did.
    pub open spec fn client(self) -> ClientKey {
        ClientKey { client_ip: self.src_ip, client_port: self.src_port }
    }

    /// What the packet asks the table for, with the backend that was chosen.
    pub open spec fn request(self, backend: ([u8; 4], u16)) -> ConnRequest {
        ConnRequest {
            client_port: self.src_port,
            client_ip: self.src_ip,
            client_dst_port: self.dst_port,
            destination_port: backend.1,
            destination_ip: backend.0,
        }
    }

    /// What the table alone says of the packet; `None` if it comes from a
    /// client without a connection.
    pub open spec fn known_route(self, table: NatState, origin: PacketOrigin) -> Option<Routing> {
        let update = TcpUpdateState { flags: self.flags, origin };
        match origin {
            PacketOrigin::Client => match table.backend_address(self.client()) {
                Some((addr, tx)) => Some(Routing::Forward { addr, tx, update }),
                None => None,
            },
            PacketOrigin::Server => match table.client_address(self.dst_port) {
                Some((addr, tx)) => Some(Routing::Forward { addr, tx, update }),
                None => Some(Routing::Discard),
            },
        }
    }

    /// Why the packet opens no connection to `chosen`: it must carry SYN,
    /// there must be a backend, and the table must not refuse.
    pub open spec fn open_error(
        self,
        table: NatState,
        chosen: Option<([u8; 4], u16)>,
    ) -> Option<NewConnectionError> {
        if !carries(self.flags, SYN) {
            Some(NewConnectionError::NotSyn)
        } else if chosen is None {
            Some(NewConnectionError::NoBackend)
        } else {
            match table.refusal(self.client()) {
                Some(error) => Some(NewConnectionError::NatTable { backend: chosen->0, error }),
                None => None,
            }
        }
    }

    /// Whether `result` and the table `after` are what the packet gives on
    /// the table `before`, when a connection to `chosen` is tried.
    pub open spec fn open_outcome(
        self,
        before: NatState,
        after: NatState,
        chosen: Option<([u8; 4], u16)>,
        result: Result<NewConnection, NewConnectionError>,
    ) -> bool {
        match self.open_error(before, chosen) {
            Some(error) => {
                &&& result == Err::<NewConnection, NewConnectionError>(error)
                &&& after == if error is NatTable {
                    before.refused()
                } else {
                    before
                }
            },
            None => {
                let port = before.pool.free.last();
                let entry = after.entries[port];
                &&& result is Ok
                &&& result->Ok_0.addr == (RedirectionAddress {
                    origin_port: port,
                    dest_ip: (chosen->0).0,
                    dest_port: (chosen->0).1,
                })
                &&& result->Ok_0.event.proxy_port == port
                &&& result->Ok_0.event.flags == self.flags
                &&& sending_half(result->Ok_0.event.rx_flag)
                    == entry.tx_flag
                &&& self.request(chosen->0).granted(entry)
                &&& before.channel_is_new(entry.tx_flag)
                &&& after == before.opened(port, entry)
            },
        }
    }
}

impl NatState {
    /// Where packets of a client go, and the channel of their connection.
    pub open spec fn backend_address(self, client: ClientKey) -> Option<
        (RedirectionAddress, Sender<TcpUpdateState>),
    > {
        match self.port_of(client) {
            Some(port) => {
                let entry = self.entries[port];
                Some(
                    (
                        RedirectionAddress {
                            origin_port: port,
                            dest_ip: entry.destination_ip,
                            dest_port: entry.destination_port,
                        },
                        entry.tx_flag,
                    ),
                )
            },
            None => None,
        }
    }

    /// Where packets to a proxy port go, and the channel of their connection.
    pub open spec fn client_address(self, proxy_port: u16) -> Option<
        (RedirectionAddress, Sender<TcpUpdateState>),
    > {
        match self.entry(proxy_port) {
            Some(entry) => Some(
                (
                    RedirectionAddress {
                        origin_port: entry.client_dst_port,
                        dest_ip: entry.client_ip,
                        dest_port: entry.client_port,
                    },
                    entry.tx_flag,
                ),
            ),
            None => None,
        }
    }
}

/// Routes packets by a NAT table and a choice of backends.
pub struct AddressProvider<T: NatTableManager, B: BackendSelector> {
    pub nat_table: T,
    pub backends: B,
}

impl<T: NatTableManager, B: BackendSelector> AddressProvider<T, B> {
    /// Whether `after` and `result` can come of trying to open a connection
    /// for `packet`: a backend is chosen first, whatever the packet is.
    pub open spec fn new_connection_outcome(
        self,
        after: Self,
        packet: Packet,
        result: Result<NewConnection, NewConnectionError>,
    ) -> bool {
        exists|chosen: Option<([u8; 4], u16)>| #[trigger]
            self.backends.may_select(&after.backends, chosen) && packet.open_outcome(
                self.nat_table.state(),
                after.nat_table.state(),
                chosen,
                result,
            )
    }

    /// Whether `after` and `routing` can come of routing `packet`, taken to
    /// come from `origin`. Only a client without a connection changes
    /// anything.
    pub open spec fn routing_outcome_from(
        self,
        origin: PacketOrigin,
        after: Self,
        packet: Packet,
        routing: Routing,
    ) -> bool {
        match packet.known_route(self.nat_table.state(), origin) {
            Some(known) => routing == known && after == self,
            None => match routing {
                Routing::Open(connection) => self.new_connection_outcome(
                    after,
                    packet,
                    Ok(connection),
                ),
                Routing::Refuse(error) => self.new_connection_outcome(after, packet, Err(error)),
                _ => false,
            },
        }
    }

    /// Whether `after` and `routing` can come of routing `packet`.
    pub open spec fn routing_outcome(self, after: Self, packet: Packet, routing: Routing) -> bool {
        exists|origin: PacketOrigin| #[trigger]
            self.may_originate(packet, origin) && self.routing_outcome_from(
                origin,
                after,
                packet,
                routing,
            )
    }

    /// Whether the packet can be taken to come from `origin`: it comes from
    /// the server side if its source address is said to be a backend.
    pub open spec fn may_originate(self, packet: Packet, origin: PacketOrigin) -> bool {
        self.backends.may_exist(packet.src_ip, packet.src_port, origin is Server)
    }

    /// Makes a provider that routes by the given table and backends.
    pub fn new(nat_table: T, backends: B) -> (provider: Self)
        ensures
            provider == (AddressProvider { nat_table, backends }),
    {
        Self { nat_table, backends }
    }

    /// Says which side a packet from the given address comes from: the server
    /// side if the address is that of a backend.
    pub fn check_origin(&self, ip: [u8; 4], port: u16) -> (origin: PacketOrigin)
        ensures
            self.backends.may_exist(ip, port, origin is Server),
    {
        if self.backends.backend_exist(ip, port) {
            PacketOrigin::Server
        } else {
            PacketOrigin::Client
        }
    }

    /// Routes a packet.
    pub fn get_redirection_addr(
        &mut self,
        ipv4_hdr: &Ipv4Header,
        tcp_hdr: &TcpHeader,
    ) -> (routing: Routing)
        requires
            old(self).nat_table.inv(),
        ensures
            final(self).nat_table.inv(),
            old(self).routing_outcome(*final(self), Packet::of(*ipv4_hdr, *tcp_hdr), routing),
    {
        let origin = self.check_origin(ipv4_hdr.src_addr, tcp_hdr.source);
        let ghost packet = Packet::of(*ipv4_hdr, *tcp_hdr);
        assert(self.may_originate(packet, origin));
        if let Some(routing) = self.known_route(ipv4_hdr, tcp_hdr, origin) {
            return routing;
        }
        let flags: u8 = tcp_hdr.flags();
        Routing::attempted(
            self.new_connection(ipv4_hdr.src_addr, tcp_hdr.source, tcp_hdr.dest, flags),
        )
    }

    /// Routes a packet from the given side by the table alone; `None` if it
    /// comes from a client without a connection.
    pub fn known_route(
        &self,
        ipv4_hdr: &Ipv4Header,
        tcp_hdr: &TcpHeader,
        origin: PacketOrigin,
    ) -> (routing: Option<Routing>)
        requires
            self.nat_table.inv(),
        ensures
            routing == Packet::of(*ipv4_hdr, *tcp_hdr).known_route(self.nat_table.state(), origin),
    {
        let flags: u8 = tcp_hdr.flags();
        match origin {
            PacketOrigin::Client => {
                if let Some((addr, tx)) = self.get_backend_address(
                    ipv4_hdr.src_addr,
                    tcp_hdr.source,
                ) {
                    return Some(
                        Routing::Forward { addr, tx, update: TcpUpdateState { flags, origin } },
                    );
                }
                None
            },
            PacketOrigin::Server => {
                if let Some((addr, tx)) = self.get_client_address(tcp_hdr.dest) {
                    return Some(
                        Routing::Forward { addr, tx, update: TcpUpdateState { flags, origin } },
                    );
                }
                Some(Routing::Discard)
            },
        }
    }

    /// Chooses a backend for a packet of a client and opens a connection to
    /// it. The connection does not count as one of the backend yet.
    pub fn new_connection(
        &mut self,
        client_ip: [u8; 4],
        client_port: u16,
        client_dst_port: u16,
        flags: u8,
    ) -> (result: Result<NewConnection, NewConnectionError>)
        requires
            old(self).nat_table.inv(),
        ensures
            final(self).nat_table.inv(),
            old(self).new_connection_outcome(
                *final(self),
                Packet { src_ip: client_ip, src_port: client_port, dst_port: client_dst_port, flags },
                result,
            ),
    {
        let destination = self.backends.select_backend();
        assert(old(self).backends.may_select(&self.backends, destination));
        self.open_connection(client_ip, client_port, client_dst_port, flags, destination)
    }

    /// Counts a connection as one of its backend, once the manager of the
    /// connections was told of it, whether or not the manager still listens.
    /// `addr` is what the connection was opened with.
    pub fn connection_announced(&mut self, addr: &RedirectionAddress)
        ensures
            final(self).nat_table == old(self).nat_table,
            old(self).backends.may_increase(addr.dest_ip, addr.dest_port, &final(self).backends),
    {
        self.backends.increase_conn(addr.dest_ip, addr.dest_port);
    }

    /// Opens a connection for a packet of a client to the backend that was
    /// chosen, if there is one.
    pub fn open_connection(
        &mut self,
        client_ip: [u8; 4],
        client_port: u16,
        client_dst_port: u16,
        flags: u8,
        destination: Option<([u8; 4], u16)>,
    ) -> (result: Result<NewConnection, NewConnectionError>)
        requires
            old(self).nat_table.inv(),
        ensures
            final(self).nat_table.inv(),
            final(self).backends == old(self).backends,
            (Packet {
                src_ip: client_ip,
                src_port: client_port,
                dst_port: client_dst_port,
                flags,
            }).open_outcome(
                old(self).nat_table.state(),
                final(self).nat_table.state(),
                destination,
                result,
            ),
    {
        if flags & SYN == 0 {
            return Err(NewConnectionError::NotSyn);
        }
        if let Some((destination_ip, destination_port)) = destination {
            match self.nat_table.new_conn(
                client_port,
                client_ip,
                client_dst_port,
                destination_port,
                destination_ip,
            ) {
                Ok((proxy_port, nat_entry)) => Ok(
                    NewConnection {
                        addr: RedirectionAddress {
                            origin_port: proxy_port,
                            dest_ip: destination_ip,
                            dest_port: destination_port,
                        },
                        event: TcpNewConn {
                            proxy_port,
                            flags,
                            rx_flag: subscribe(&nat_entry.tx_flag),
                        },
                    },
                ),
                Err(error) => Err(
                    NewConnectionError::NatTable {
                        backend: (destination_ip, destination_port),
                        error,
                    },
                ),
            }
        } else {
            Err(NewConnectionError::NoBackend)
        }
    }

    /// Returns where the packets of a client go, and the channel of their
    /// connection; `None` if the client has none.
    pub fn get_backend_address(&self, ip: [u8; 4], port: u16) -> (route: Option<
        (RedirectionAddress, Sender<TcpUpdateState>),
    >)
        requires
            self.nat_table.inv(),
        ensures
            route == self.nat_table.state().backend_address(
                ClientKey { client_ip: ip, client_port: port },
            ),
    {
        let client_key = ClientKey::new(ip, port);
        proof {
            self.nat_table.lemma_inv();
        }
        if self.nat_table.client_key_exists(&client_key) {
            if let Some(proxy_port) = self.nat_table.get_connection_port(&client_key) {
                if let Some(nat_entry) = self.nat_table.get_nat_entry(proxy_port) {
                    return Some(
                        (
                            RedirectionAddress {
                                origin_port: proxy_port,
                                dest_ip: nat_entry.destination_ip,
                                dest_port: nat_entry.destination_port,
                            },
                            clone_sender(&nat_entry.tx_flag),
                        ),
                    );
                }
            }
        }
        None
    }

    /// Returns where the packets to a proxy port go, and the channel of their
    /// connection; `None` if the port is not in use.
    pub fn get_client_address(&self, proxy_port: u16) -> (route: Option<
        (RedirectionAddress, Sender<TcpUpdateState>),
    >)
        requires
            self.nat_table.inv(),
        ensures
            route == self.nat_table.state().client_address(proxy_port),
    {
        if let Some(nat_entry) = self.nat_table.get_nat_entry(proxy_port) {
            return Some(
                (
                    RedirectionAddress {
                        origin_port: nat_entry.client_dst_port,
                        dest_ip: nat_entry.client_ip,
                        dest_port: nat_entry.client_port,
                    },
                    clone_sender(&nat_entry.tx_flag),
                ),
            );
        }
        None
    }
}

} // verus!
