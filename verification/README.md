# load_balancer

The connection-tracking core of a TCP load balancer, verified with Verus.

The balancer stands between clients and backends and rewrites the addresses of
TCP packets. Each connection gets a proxy port, which stands for the client
towards its backend.

- `src/TcpFlags.rs`: the bits of the TCP flags byte.
- `src/connections_balancer.rs`: the trait that chooses backends.
- `src/connections_manager/ports_pool.rs`: the pool of proxy ports.
- `src/connections_manager/nat_table.rs`: the NAT table.
- `src/connections_manager/tcp_state.rs`: how packets move the state of a
  connection.
- `src/connections_manager/tcp_state_manager.rs`: what the tasks that watch the
  connections decide.
- `src/connections_manager/address_provider.rs`: where a packet goes.
- `src/connections_manager/channel.rs`: what is believed of tokio's watch
  channels.
- `src/connections_manager/laws.rs`: what holds of all of it together.
- `app/`: the tasks, channels and locks on tokio.

The library decides and keeps the tables. What it wants announced it hands
back as a value (`Routing`, `TcpAction`, `ManagerAction`), and `app/` does it.
