//! Relays IPv6 multicast datagrams between a local link and a fixed list of
//! unicast peers on an overlay network.
pub mod discovery;
pub mod endpoint;
mod error;
pub mod iface;
pub mod relay;
pub mod sockets;

pub use endpoint::Endpoint;
pub use error::NetworkingError;
pub use iface::{get_interface, non_loopback_interfaces, Interface, IpAddress};
pub use sockets::{broadcast_socket_plan, BroadcastPlan, SocketOption, SocketSetup};
pub use relay::{Channel, Event, Phase, Relay, RelayConfig, Step, Wait};
pub use discovery::{peer_targets, RELAY_PORT};
