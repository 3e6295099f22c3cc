use vstd::prelude::*;

use crate::endpoint::Endpoint;
use crate::error::NetworkingError;
use crate::iface::{Interface, IpAddress};

verus! {

/// One setting applied to a fresh IPv6 UDP socket.
#[derive(Clone, Copy, Debug, PartialEq, Eq, Structural)]
pub enum SocketOption {
    /// Join the multicast group `group` on the interface with index `interface`.
    JoinMulticastV6 { group: u128, interface: u32 },
    /// Send multicast datagrams out of the interface with this index.
    MulticastInterfaceV6(u32),
    Nonblocking,
    /// Refuse IPv4-mapped traffic.
    OnlyV6,
    ReuseAddress,
    ReusePort,
}

/// How to set up one socket: the options, in the order they are applied, then
/// a bind to the wildcard IPv6 address on `bind_port` (0 for an ephemeral port).
#[derive(Debug)]
pub struct SocketSetup {
    pub options: Vec<SocketOption>,
    pub bind_port: u16,
}

/// The two multicast sockets: `inbound` receives the group's datagrams,
/// `outbound` sends to the group.
#[derive(Debug)]
pub struct BroadcastPlan {
    pub inbound: SocketSetup,
    pub outbound: SocketSetup,
}

/// The options of the socket that joins `group` on interface `index`.
pub open spec fn inbound_options(group: Endpoint, index: u32) -> Seq<SocketOption> {
    seq![
        SocketOption::JoinMulticastV6 { group: group.ip, interface: index },
        SocketOption::Nonblocking,
        SocketOption::OnlyV6,
        SocketOption::ReuseAddress,
        SocketOption::ReusePort,
    ]
}

/// The options of the socket that sends to the group out of interface `index`.
pub open spec fn outbound_options(index: u32) -> Seq<SocketOption> {
    seq![
        SocketOption::MulticastInterfaceV6(index),
        SocketOption::Nonblocking,
        SocketOption::ReuseAddress,
        SocketOption::ReusePort,
    ]
}

/// Decides how the two multicast sockets for `interface` and the group
/// `broadcast_socket_addr` are set up. An IPv4 interface is refused, and so
/// is one without an index, since the group has to be scoped to it.
pub fn broadcast_socket_plan(interface: &Interface, broadcast_socket_addr: &Endpoint) -> (r: Result<
    BroadcastPlan,
    NetworkingError,
>)
    ensures
        interface.addr is V4 ==> r matches Err(NetworkingError::Ipv4NotSupported),
        interface.addr is V6 && interface.index is None ==> r matches Err(
            NetworkingError::UnableToFindInterfaceNumber,
        ),
        interface.addr is V6 && interface.index is Some <==> r is Ok,
        r matches Ok(p) ==> {
            &&& p.inbound.options@ == inbound_options(
                *broadcast_socket_addr,
                interface.index->Some_0,
            )
            &&& p.inbound.bind_port == broadcast_socket_addr.port
            &&& p.outbound.options@ == outbound_options(interface.index->Some_0)
            &&& p.outbound.bind_port == 0
        },
{
    if let IpAddress::V4(_) = interface.addr {
        return Err(NetworkingError::Ipv4NotSupported);
    }
    let index = match interface.index {
        Some(i) => i,
        None => {
            return Err(NetworkingError::UnableToFindInterfaceNumber);
        },
    };
    let inbound = SocketSetup {
        options: vec![
            SocketOption::JoinMulticastV6 { group: broadcast_socket_addr.ip, interface: index },
            SocketOption::Nonblocking,
            SocketOption::OnlyV6,
            SocketOption::ReuseAddress,
            SocketOption::ReusePort,
        ],
        bind_port: broadcast_socket_addr.port,
    };
    let outbound = SocketSetup {
        options: vec![
            SocketOption::MulticastInterfaceV6(index),
            SocketOption::Nonblocking,
            SocketOption::ReuseAddress,
            SocketOption::ReusePort,
        ],
        bind_port: 0,
    };
    assert(inbound.options@ =~= inbound_options(*broadcast_socket_addr, index));
    assert(outbound.options@ =~= outbound_options(index));
    Ok(BroadcastPlan { inbound, outbound })
}

} // verus!
