//! Tracking of the connections that pass through the balancer.
pub mod address_provider;
pub mod channel;
pub mod laws;
pub mod nat_table;
pub mod operation_laws;
pub mod ports_pool;
pub mod tcp_state;
pub mod tcp_state_manager;

pub use address_provider::{
    AddressProvider, Ipv4Header, NewConnection, NewConnectionError, Packet, RedirectionAddress,
    Routing, TcpHeader,
};
pub use nat_table::{
    ClientKey, ConnRequest, NatEntry, NatState, NatTable, NatTableError, NatTableManager,
    MAX_PORT, MIN_PORT,
};
pub use ports_pool::{ByteOrder, PoolState, PortsPool};
pub use tcp_state::{
    set_conn_state, ConnState, Halves, PacketOrigin, Signal, TcpUpdateState,
    CONNECTION_TIMEOUT_SECS,
};
pub use tcp_state_manager::{
    connections_manager_step, ManagerAction, ManagerEvent, ManagerRun, TcpAction, TcpEvent,
    TcpNewConn, TcpStateManager,
};
