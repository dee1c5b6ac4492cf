//! The NAT table: which proxy port stands for which client.
use std::collections::HashMap;

use tokio::sync::watch::Sender;
use vstd::prelude::*;

use crate::connections_manager::channel::{clone_sender, initial_update, open_channel};
use crate::connections_manager::ports_pool::{ByteOrder, PoolState, PortsPool};
use crate::connections_manager::tcp_state::{PacketOrigin, TcpUpdateState};
use crate::TcpFlags::SYN;

verus! {

broadcast use vstd::std_specs::hash::group_hash_axioms;

/// The first port of the default pool.
pub const MIN_PORT: u16 = 32768;

/// The last port of the default pool.
pub const MAX_PORT: u16 = 60999;

/// One connection in the NAT table.
pub struct NatEntry {
    /// The address from which the connection starts.
    pub client_port: u16,
    pub client_ip: [u8; 4],
    /// The destination port of the packet that the client sent.
    pub client_dst_port: u16,
    /// The address to which the proxy port maps.
    pub destination_port: u16,
    pub destination_ip: [u8; 4],
    /// Announces the packets of the connection.
    pub tx_flag: Sender<TcpUpdateState>,
}

impl NatEntry {
    /// The client of the connection.
    pub open spec fn client(self) -> ClientKey {
        ClientKey { client_ip: self.client_ip, client_port: self.client_port }
    }
}

impl Clone for NatEntry {
    fn clone(&self) -> (copy: Self)
        ensures
            copy == *self,
    {
        NatEntry {
            client_port: self.client_port,
            client_ip: self.client_ip,
            client_dst_port: self.client_dst_port,
            destination_port: self.destination_port,
            destination_ip: self.destination_ip,
            tx_flag: clone_sender(&self.tx_flag),
        }
    }
}

/// The address of a client: what its connection is found by.
#[derive(Hash, Eq, PartialEq)]
pub struct ClientKey {
    pub client_ip: [u8; 4],
    pub client_port: u16,
}

impl ClientKey {
    /// Makes the key of a client.
    pub fn new(client_ip: [u8; 4], client_port: u16) -> (key: Self)
        ensures
            key == (ClientKey { client_ip, client_port }),
    {
        Self { client_ip, client_port }
    }

    /// The key as one number: the bytes of the address, then the port.
    pub open spec fn number(self) -> u64 {
        ((((self.client_ip[0] * 256 + self.client_ip[1]) * 256 + self.client_ip[2]) * 256
            + self.client_ip[3]) * 65536 + self.client_port) as u64
    }

    /// Computes the key as one number.
    fn packed(&self) -> (number: u64)
        ensures
            number == self.number(),
    {
        let ip = self.client_ip;
        (((ip[0] as u64 * 256 + ip[1] as u64) * 256 + ip[2] as u64) * 256 + ip[3] as u64) * 65536
            + self.client_port as u64
    }

    /// Different keys have different numbers.
    pub proof fn lemma_number_injective(self, other: ClientKey)
        requires
            self.number() == other.number(),
        ensures
            self == other,
    {
        assert(self.client_ip =~= other.client_ip);
    }
}

/// Why the NAT table refuses a request.
#[derive(Debug, PartialEq, Eq, Clone, Copy, Structural)]
pub enum NatTableError {
    NoAvailablePorts,
    NatEntryNotFound,
    NatEntryAlreadyExists,
    ConnectionNotFound,
}

impl NatTableError {
    /// The message for people.
    pub open spec fn text(self) -> Seq<char> {
        match self {
            NatTableError::NoAvailablePorts => "No available ports in the pool"@,
            NatTableError::NatEntryNotFound => "NAT entry not found for the given port"@,
            NatTableError::NatEntryAlreadyExists => "NAT entry already exists for the given client"@,
            NatTableError::ConnectionNotFound => "Connection does not exists"@,
        }
    }

    /// Returns the message.
    pub fn message(&self) -> (text: &'static str)
        ensures
            text@ == self.text(),
    {
        match self {
            NatTableError::NoAvailablePorts => "No available ports in the pool",
            NatTableError::NatEntryNotFound => "NAT entry not found for the given port",
            NatTableError::NatEntryAlreadyExists => "NAT entry already exists for the given client",
            NatTableError::ConnectionNotFound => "Connection does not exists",
        }
    }
}

/// What a NAT table holds.
#[verifier::ext_equal]
pub struct NatState {
    /// The connection of each proxy port in use.
    pub entries: Map<u16, NatEntry>,
    /// The proxy port of each client.
    pub clients: Map<ClientKey, u16>,
    /// The ports that are not in use.
    pub pool: PoolState,
}

impl NatState {
    /// The table without connections.
    pub open spec fn fresh(pool: PoolState) -> NatState {
        NatState { entries: Map::empty(), clients: Map::empty(), pool }
    }

    /// The two maps mirror each other, no two connections share a channel,
    /// and the ports in use together with those in the pool are no more than
    /// fit into the pool.
    pub open spec fn consistent(self) -> bool {
        &&& self.entries.dom().finite()
        &&& self.entries.len() + self.pool.free.len() <= self.pool.capacity
        &&& forall|port: u16| #[trigger]
            self.entries.contains_key(port) ==> self.clients.contains_key(
                self.entries[port].client(),
            ) && self.clients[self.entries[port].client()] == port
        &&& forall|key: ClientKey| #[trigger]
            self.clients.contains_key(key) ==> self.entries.contains_key(self.clients[key])
                && self.entries[self.clients[key]].client() == key
        &&& forall|one: u16, other: u16|
            #![trigger self.entries[one], self.entries[other]]
            self.entries.contains_key(one) && self.entries.contains_key(other) && one != other
                ==> self.entries[one].tx_flag != self.entries[other].tx_flag
    }

    /// Whether no connection holds the channel of `tx`.
    pub open spec fn channel_is_new(self, tx: Sender<TcpUpdateState>) -> bool {
        forall|port: u16| #[trigger]
            self.entries.contains_key(port) ==> self.entries[port].tx_flag != tx
    }

    /// No port is in the pool twice, or both in the pool and in use.
    pub open spec fn ports_unique(self) -> bool {
        &&& self.pool.free.no_duplicates()
        &&& forall|port: u16| #[trigger]
            self.entries.contains_key(port) ==> !self.pool.free.contains(port)
    }

    /// The table with one more connection, on a port out of the pool.
    pub open spec fn opened(self, port: u16, entry: NatEntry) -> NatState {
        NatState {
            entries: self.entries.insert(port, entry),
            clients: self.clients.insert(entry.client(), port),
            pool: self.pool.taken(),
        }
    }

    /// The table without the connection of `port`, which is back in the pool.
    pub open spec fn closed(self, port: u16) -> NatState {
        NatState {
            entries: self.entries.remove(port),
            clients: self.clients.remove(self.entries[port].client()),
            pool: self.pool.released(port),
        }
    }

    /// The table after a refused connection: the port that was meant for it
    /// is gone from the pool.
    pub open spec fn refused(self) -> NatState {
        NatState { pool: self.pool.taken(), ..self }
    }

    /// The error that a request for a connection of `client` meets: an empty
    /// pool first, then a client or a port that is in use.
    pub open spec fn refusal(self, client: ClientKey) -> Option<NatTableError> {
        match self.pool.next() {
            None => Some(NatTableError::NoAvailablePorts),
            Some(port) => {
                if self.clients.contains_key(client) || self.entries.contains_key(port) {
                    Some(NatTableError::NatEntryAlreadyExists)
                } else {
                    None
                }
            },
        }
    }

    /// The connection of a proxy port.
    pub open spec fn entry(self, port: u16) -> Option<NatEntry> {
        if self.entries.contains_key(port) {
            Some(self.entries[port])
        } else {
            None
        }
    }

    /// The proxy port of a client.
    pub open spec fn port_of(self, client: ClientKey) -> Option<u16> {
        if self.clients.contains_key(client) {
            Some(self.clients[client])
        } else {
            None
        }
    }
}

/// The addresses of a connection that is asked for.
pub struct ConnRequest {
    pub client_port: u16,
    pub client_ip: [u8; 4],
    pub client_dst_port: u16,
    pub destination_port: u16,
    pub destination_ip: [u8; 4],
}

impl ConnRequest {
    /// The client that asks.
    pub open spec fn client(self) -> ClientKey {
        ClientKey { client_ip: self.client_ip, client_port: self.client_port }
    }

    /// Whether `entry` is the connection that was asked for. Its channel was
    /// opened with the SYN of the client.
    pub open spec fn granted(self, entry: NatEntry) -> bool {
        &&& entry.client_port == self.client_port
        &&& entry.client_ip == self.client_ip
        &&& entry.client_dst_port == self.client_dst_port
        &&& entry.destination_port == self.destination_port
        &&& entry.destination_ip == self.destination_ip
        &&& initial_update(entry.tx_flag) == (TcpUpdateState {
            flags: SYN,
            origin: PacketOrigin::Client,
        })
    }

    /// Whether `result` and the table `after` are what the request gives on
    /// the table `before`.
    pub open spec fn outcome(
        self,
        before: NatState,
        after: NatState,
        result: Result<(u16, NatEntry), NatTableError>,
    ) -> bool {
        match before.refusal(self.client()) {
            Some(error) => {
                &&& result == Err::<(u16, NatEntry), NatTableError>(error)
                &&& after == before.refused()
            },
            None => {
                &&& result is Ok
                &&& Some(result->Ok_0.0) == before.pool.next()
                &&& self.granted(result->Ok_0.1)
                &&& before.channel_is_new(result->Ok_0.1.tx_flag)
                &&& after == before.opened(result->Ok_0.0, result->Ok_0.1)
            },
        }
    }
}

/// The connections that pass through the balancer.
pub struct NatTable {
    /// The connection of each proxy port.
    nat_map: HashMap<u16, NatEntry>,
    /// The proxy port of each client, by the number of its key.
    client_map: HashMap<u64, u16>,
    /// The proxy ports that are free.
    ports_pool: PortsPool,
}

impl View for NatTable {
    type V = NatState;

    closed spec fn view(&self) -> NatState {
        NatState {
            entries: self.nat_map@,
            clients: Map::new(
                |key: ClientKey| self.client_map@.contains_key(key.number()),
                |key: ClientKey| self.client_map@[key.number()],
            ),
            pool: self.ports_pool@,
        }
    }
}

impl NatTable {
    /// The pool is in order and the table is consistent.
    pub closed spec fn wf(&self) -> bool {
        &&& self.ports_pool.wf()
        &&& self@.consistent()
    }

    /// The table of an instance in order is consistent.
    pub proof fn lemma_consistent(&self)
        requires
            self.wf(),
        ensures
            self@.consistent(),
    {
    }

    /// Makes a table without connections that takes its ports from the pool.
    pub fn new(ports_pool: PortsPool) -> (table: Self)
        requires
            ports_pool.wf(),
        ensures
            table.wf(),
            table@ == NatState::fresh(ports_pool@),
    {
        proof {
            ports_pool.lemma_within_capacity();
        }
        let table = Self { nat_map: HashMap::new(), client_map: HashMap::new(), ports_pool };
        assert(table@ =~= NatState::fresh(ports_pool@));
        table
    }

    /// Opens a connection: takes a port out of the pool and enters the
    /// connection under it. Where the client or the port turns out to be in
    /// use, the request is refused and the port does not go back.
    pub fn new_conn(
        &mut self,
        client_port: u16,
        client_ip: [u8; 4],
        client_dst_port: u16,
        destination_port: u16,
        destination_ip: [u8; 4],
    ) -> (result: Result<(u16, NatEntry), NatTableError>)
        requires
            old(self).wf(),
        ensures
            final(self).wf(),
            (ConnRequest {
                client_port,
                client_ip,
                client_dst_port,
                destination_port,
                destination_ip,
            }).outcome(old(self)@, final(self)@, result),
            result matches Ok((_, entry)) ==> {
                &&& entry.client_port == client_port
                &&& entry.client_ip == client_ip
                &&& entry.client_dst_port == client_dst_port
                &&& entry.destination_port == destination_port
                &&& entry.destination_ip == destination_ip
            },
    {
        let proxy_port = match self.ports_pool.get_port() {
            Some(port) => port,
            None => {
                assert(self@ =~= old(self)@.refused());
                return Err(NatTableError::NoAvailablePorts);
            },
        };
        let nat_entry = NatEntry {
            client_port,
            client_ip,
            client_dst_port,
            destination_port,
            destination_ip,
            tx_flag: open_channel(
                TcpUpdateState { flags: SYN, origin: PacketOrigin::Client },
                &self.nat_map,
            ),
        };
        let client_key = ClientKey::new(client_ip, client_port);
        let number = client_key.packed();
        assert(self@ =~= old(self)@.refused());
        if self.client_map.contains_key(&number) {
            assert(self@.clients.contains_key(client_key));
            return Err(NatTableError::NatEntryAlreadyExists);
        }
        assert(!self@.clients.contains_key(client_key));
        if self.nat_map.contains_key(&proxy_port) {
            return Err(NatTableError::NatEntryAlreadyExists);
        }
        self.nat_map.insert(proxy_port, nat_entry.clone());
        self.client_map.insert(number, proxy_port);
        proof {
            assert forall|key: ClientKey| key.number() == client_key.number() implies key
                == client_key by {
                key.lemma_number_injective(client_key);
            }
            assert(self@.clients =~= old(self)@.clients.insert(client_key, proxy_port));
            assert(self@ =~= old(self)@.opened(proxy_port, nat_entry));
        }
        Ok((proxy_port, nat_entry))
    }

    /// Returns the connection of a proxy port.
    pub fn get_nat_entry(&self, port: u16) -> (entry: Option<&NatEntry>)
        ensures
            entry matches Some(entry) ==> self@.entry(port) == Some(*entry),
            entry is None ==> self@.entry(port) is None,
    {
        self.nat_map.get(&port)
    }

    /// Says whether a client has a connection.
    pub fn client_key_exists(&self, key: &ClientKey) -> (found: bool)
        ensures
            found == self@.clients.contains_key(*key),
    {
        self.client_map.contains_key(&key.packed())
    }

    /// Says whether a proxy port is in use.
    pub fn nat_entry_exists(&self, port: u16) -> (found: bool)
        ensures
            found == self@.entries.contains_key(port),
    {
        self.nat_map.contains_key(&port)
    }

    /// Returns how many connections there are.
    pub fn get_active_connections(&self) -> (count: usize)
        ensures
            count == self@.entries.len(),
    {
        self.nat_map.len()
    }

    /// Returns the proxy port of a client.
    pub fn get_connection_port(&self, key: &ClientKey) -> (port: Option<u16>)
        ensures
            port == self@.port_of(*key),
    {
        match self.client_map.get(&key.packed()) {
            Some(port) => Some(*port),
            None => None,
        }
    }
}

impl Default for NatTable {
    /// Makes a table without connections, with the ports from `MIN_PORT` to
    /// `MAX_PORT`.
    fn default() -> (table: Self)
        ensures
            table.wf(),
            exists|order: ByteOrder|
                order.of_this_machine() && table@ == NatState::fresh(
                    #[trigger] PoolState::full(MIN_PORT, MAX_PORT, order),
                ),
    {
        Self::new(PortsPool::new(MIN_PORT, MAX_PORT))
    }
}

/// What the balancer asks of a NAT table.
pub trait NatTableManager {
    /// Whether the table is in order.
    spec fn inv(&self) -> bool;

    /// What the table holds.
    spec fn state(&self) -> NatState;

    /// A table in order is consistent.
    proof fn lemma_inv(&self)
        requires
            self.inv(),
        ensures
            self.state().consistent(),
    ;

    /// Ends the connection of a proxy port: takes it out of the table, gives
    /// its port back to the pool and returns it. A port that is not in use is
    /// an error.
    fn close_connection(&mut self, port: u16) -> (result: Result<NatEntry, NatTableError>)
        requires
            old(self).inv(),
        ensures
            final(self).inv(),
            match old(self).state().entry(port) {
                Some(entry) => {
                    &&& result == Ok::<NatEntry, NatTableError>(entry)
                    &&& final(self).state() == old(self).state().closed(port)
                },
                None => {
                    &&& result == Err::<NatEntry, NatTableError>(NatTableError::ConnectionNotFound)
                    &&& final(self).state() == old(self).state()
                },
            },
    ;

    /// Opens a connection and returns its proxy port and its entry. It is an
    /// error if no port is free, or if the client or the port is in use.
    fn new_conn(
        &mut self,
        client_port: u16,
        client_ip: [u8; 4],
        client_dst_port: u16,
        destination_port: u16,
        destination_ip: [u8; 4],
    ) -> (result: Result<(u16, NatEntry), NatTableError>)
        requires
            old(self).inv(),
        ensures
            final(self).inv(),
            (ConnRequest {
                client_port,
                client_ip,
                client_dst_port,
                destination_port,
                destination_ip,
            }).outcome(old(self).state(), final(self).state(), result),
            result matches Ok((_, entry)) ==> {
                &&& entry.client_port == client_port
                &&& entry.client_ip == client_ip
                &&& entry.client_dst_port == client_dst_port
                &&& entry.destination_port == destination_port
                &&& entry.destination_ip == destination_ip
            },
    ;

    /// Returns the connection of a proxy port.
    fn get_nat_entry(&self, port: u16) -> (entry: Option<&NatEntry>)
        requires
            self.inv(),
        ensures
            entry matches Some(entry) ==> self.state().entry(port) == Some(*entry),
            entry is None ==> self.state().entry(port) is None,
    ;

    /// Says whether a client has a connection.
    fn client_key_exists(&self, key: &ClientKey) -> (found: bool)
        requires
            self.inv(),
        ensures
            found == self.state().clients.contains_key(*key),
    ;

    /// Says whether a proxy port is in use.
    fn nat_entry_exists(&self, port: u16) -> (found: bool)
        requires
            self.inv(),
        ensures
            found == self.state().entries.contains_key(port),
    ;

    /// Returns how many connections there are.
    fn get_active_connections(&self) -> (count: usize)
        requires
            self.inv(),
        ensures
            count == self.state().entries.len(),
    ;

    /// Returns the proxy port of a client.
    fn get_connection_port(&self, key: &ClientKey) -> (port: Option<u16>)
        requires
            self.inv(),
        ensures
            port == self.state().port_of(*key),
    ;
}

impl NatTableManager for NatTable {
    open spec fn inv(&self) -> bool {
        self.wf()
    }

    open spec fn state(&self) -> NatState {
        self@
    }

    proof fn lemma_inv(&self) {
    }

    fn close_connection(&mut self, port: u16) -> (result: Result<NatEntry, NatTableError>) {
        if let Some(nat_entry) = self.nat_map.remove(&port) {
            let client_key = ClientKey::new(nat_entry.client_ip, nat_entry.client_port);
            self.client_map.remove(&client_key.packed());
            self.ports_pool.release_port(port);
            proof {
                assert forall|key: ClientKey| key.number() == client_key.number() implies key
                    == client_key by {
                    key.lemma_number_injective(client_key);
                }
                assert(self@.clients =~= old(self)@.clients.remove(client_key));
                assert(self@ =~= old(self)@.closed(port));
            }
            Ok(nat_entry)
        } else {
            assert(self@ =~= old(self)@);
            Err(NatTableError::ConnectionNotFound)
        }
    }

    fn new_conn(
        &mut self,
        client_port: u16,
        client_ip: [u8; 4],
        client_dst_port: u16,
        destination_port: u16,
        destination_ip: [u8; 4],
    ) -> (result: Result<(u16, NatEntry), NatTableError>) {
        self.new_conn(client_port, client_ip, client_dst_port, destination_port, destination_ip)
    }

    fn get_nat_entry(&self, port: u16) -> (entry: Option<&NatEntry>) {
        self.get_nat_entry(port)
    }

    fn client_key_exists(&self, key: &ClientKey) -> (found: bool) {
        self.client_key_exists(key)
    }

    fn nat_entry_exists(&self, port: u16) -> (found: bool) {
        self.nat_entry_exists(port)
    }

    fn get_active_connections(&self) -> (count: usize) {
        self.get_active_connections()
    }

    fn get_connection_port(&self, key: &ClientKey) -> (port: Option<u16>) {
        self.get_connection_port(key)
    }
}

} // verus!
