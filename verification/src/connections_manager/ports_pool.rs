//! The pool of proxy ports.
use vstd::prelude::*;

verus! {

/// The order in which a machine keeps the two bytes of a port.
#[derive(PartialEq, Eq, Debug, Clone, Copy, Structural)]
pub enum ByteOrder {
    BigEndian,
    LittleEndian,
}

/// `port` with its two bytes exchanged.
pub open spec fn swapped(port: u16) -> u16 {
    ((port % 256) * 256 + port / 256) as u16
}

impl ByteOrder {
    /// The integer whose bytes on a machine of this order spell `port` in
    /// big endian, as packets do.
    pub open spec fn big_endian(self, port: u16) -> u16 {
        match self {
            ByteOrder::BigEndian => port,
            ByteOrder::LittleEndian => swapped(port),
        }
    }

    /// Returns `port` in big endian for a machine of this order.
    pub fn to_big_endian(self, port: u16) -> (r: u16)
        ensures
            r == self.big_endian(port),
    {
        match self {
            ByteOrder::BigEndian => port,
            ByteOrder::LittleEndian => (port % 256) * 256 + port / 256,
        }
    }
}

/// Calls `u16::to_be`, which keeps the integer on a big endian machine and
/// exchanges its bytes on a little endian one. Which of the two this machine
/// is, the contract leaves open.
#[verifier::external_body]
fn to_be(port: u16) -> (r: u16)
    ensures
        r == port || r == swapped(port),
{
    port.to_be()
}

impl ByteOrder {
    /// Whether this is the order that `u16::to_be` shows this machine to
    /// have: it turns 1 into what `to_be` turns 1 into.
    pub closed spec fn of_this_machine(self) -> bool {
        call_ensures(to_be, (1u16,), self.big_endian(1))
    }

    /// This machine counts as big endian only where `to_be` may keep 1 as it
    /// is, and as little endian only where it may move 1 into the other byte.
    proof fn law_order_is_shown_by_one(self)
        requires
            self.of_this_machine(),
        ensures
            self is BigEndian ==> call_ensures(to_be, (1u16,), 1u16),
            self is LittleEndian ==> call_ensures(to_be, (1u16,), 256u16),
    {
    }
}

/// Finds the byte order of this machine.
fn host_byte_order() -> (order: ByteOrder)
    ensures
        order.of_this_machine(),
{
    if to_be(1) == 1 {
        ByteOrder::BigEndian
    } else {
        ByteOrder::LittleEndian
    }
}

/// What a pool holds.
pub struct PoolState {
    /// The ports that can be handed out; the last one goes first.
    pub free: Seq<u16>,
    /// How many ports fit into the pool.
    pub capacity: nat,
}

impl PoolState {
    /// The pool that holds every port from `min_port` to `max_port`, in big
    /// endian for a machine of the given order.
    pub open spec fn full(min_port: u16, max_port: u16, order: ByteOrder) -> PoolState {
        let capacity = (max_port - min_port + 1) as nat;
        PoolState {
            free: Seq::new(capacity, |i: int| order.big_endian((min_port + i) as u16)),
            capacity,
        }
    }

    /// The pool after a port was asked for.
    pub open spec fn taken(self) -> PoolState {
        PoolState {
            free: if self.free.len() == 0 {
                self.free
            } else {
                self.free.drop_last()
            },
            ..self
        }
    }

    /// The port that is handed out next.
    pub open spec fn next(self) -> Option<u16> {
        if self.free.len() == 0 {
            None
        } else {
            Some(self.free.last())
        }
    }

    /// The pool after `port` was given back. A full pool ignores it.
    pub open spec fn released(self, port: u16) -> PoolState {
        PoolState {
            free: if self.free.len() < self.capacity {
                self.free.push(port)
            } else {
                self.free
            },
            ..self
        }
    }
}

/// The pool of ports for NAT entries: a stack of the ports that are free.
///
/// Ports are kept in big endian, so that a router need not convert them.
#[derive(Debug)]
pub struct PortsPool {
    max_ports: usize,
    ports_available: usize,
    ports: Vec<Option<u16>>,
}

impl View for PortsPool {
    type V = PoolState;

    closed spec fn view(&self) -> PoolState {
        PoolState {
            free: Seq::new(self.ports_available as nat, |i: int| self.ports@[i]->0),
            capacity: self.max_ports as nat,
        }
    }
}

impl PortsPool {
    /// The slots below `ports_available` hold a port, the others are empty,
    /// and there is one slot for each port.
    pub closed spec fn wf(&self) -> bool {
        &&& self.ports@.len() == self.max_ports
        &&& self.ports_available <= self.max_ports
        &&& forall|i: int| 0 <= i < self.ports_available ==> (#[trigger] self.ports@[i]) is Some
        &&& forall|i: int|
            self.ports_available <= i < self.max_ports ==> (#[trigger] self.ports@[i]) is None
    }

    /// A pool never holds more ports than fit into it.
    pub proof fn lemma_within_capacity(&self)
        requires
            self.wf(),
        ensures
            self@.free.len() <= self@.capacity,
            self@.capacity <= usize::MAX,
    {
    }

    /// Makes a pool of the ports from `min_port` to `max_port`, in big endian
    /// for this machine.
    pub fn new(min_port: u16, max_port: u16) -> (pool: Self)
        requires
            min_port <= max_port,
            max_port - min_port < u16::MAX,
        ensures
            pool.wf(),
            exists|order: ByteOrder|
                order.of_this_machine() && pool@ == #[trigger] PoolState::full(
                    min_port,
                    max_port,
                    order,
                ),
    {
        Self::with_byte_order(min_port, max_port, host_byte_order())
    }

    /// Makes a pool of the ports from `min_port` to `max_port`, in big endian
    /// for a machine of the given byte order.
    pub fn with_byte_order(min_port: u16, max_port: u16, order: ByteOrder) -> (pool: Self)
        requires
            min_port <= max_port,
            max_port - min_port < u16::MAX,
        ensures
            pool.wf(),
            pool@ == PoolState::full(min_port, max_port, order),
    {
        let capacity: usize = (max_port - min_port + 1) as usize;
        let mut ports: Vec<Option<u16>> = Vec::with_capacity(capacity);
        for i in 0..capacity
            invariant
                min_port <= max_port,
                capacity == max_port - min_port + 1,
                ports@.len() == i,
                forall|j: int|
                    0 <= j < i ==> #[trigger] ports@[j] == Some(
                        order.big_endian((min_port + j) as u16),
                    ),
        {
            ports.push(Some(order.to_big_endian(min_port + i as u16)));
        }
        let pool = Self { max_ports: capacity, ports_available: capacity, ports };
        assert(pool@.free =~= PoolState::full(min_port, max_port, order).free);
        pool
    }

    /// Takes a port out of the pool, the one that came in last; `None` when
    /// the pool is empty.
    pub fn get_port(&mut self) -> (port: Option<u16>)
        requires
            old(self).wf(),
        ensures
            final(self).wf(),
            port == old(self)@.next(),
            final(self)@ == old(self)@.taken(),
    {
        if self.ports_available == 0 {
            return None;
        }
        self.ports_available -= 1;
        let port = self.ports[self.ports_available].take();
        assert(self@.free =~= old(self)@.taken().free);
        port
    }

    /// Puts a port back into the pool; a full pool drops it.
    pub fn release_port(&mut self, port: u16)
        requires
            old(self).wf(),
        ensures
            final(self).wf(),
            final(self)@ == old(self)@.released(port),
    {
        if self.ports_available < self.max_ports {
            self.ports[self.ports_available] = Some(port);
            self.ports_available += 1;
        }
        assert(self@.free =~= old(self)@.released(port).free);
    }

    /// Returns how many ports fit into the pool.
    pub fn get_max_ports(&self) -> (max: usize)
        ensures
            max == self@.capacity,
    {
        self.max_ports
    }
}

} // verus!
