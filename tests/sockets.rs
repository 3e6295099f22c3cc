use crosswind::{broadcast_socket_plan, Endpoint, Interface, IpAddress, NetworkingError, SocketOption};

const GROUP: u128 = 0xff02_0000_0000_0000_0000_0000_1213_1989;

fn eth_test(addr: IpAddress, index: Option<u32>) -> Interface {
    Interface { name: "eth-test".to_string(), addr, addr_text: "fe80::1".to_string(), index }
}

#[test]
fn plan_for_ipv6_interface() {
    let group = Endpoint::new(GROUP, 7475);
    let plan = broadcast_socket_plan(&eth_test(IpAddress::V6(0xfe80 << 112 | 1), Some(4)), &group)
        .expect("plan");
    assert_eq!(
        plan.inbound.options,
        vec![
            SocketOption::JoinMulticastV6 { group: GROUP, interface: 4 },
            SocketOption::Nonblocking,
            SocketOption::OnlyV6,
            SocketOption::ReuseAddress,
            SocketOption::ReusePort,
        ]
    );
    assert_eq!(plan.inbound.bind_port, 7475);
    assert_eq!(
        plan.outbound.options,
        vec![
            SocketOption::MulticastInterfaceV6(4),
            SocketOption::Nonblocking,
            SocketOption::ReuseAddress,
            SocketOption::ReusePort,
        ]
    );
    assert_eq!(plan.outbound.bind_port, 0);
}

#[test]
fn plan_refuses_ipv4() {
    let group = Endpoint::new(GROUP, 7475);
    let r = broadcast_socket_plan(&eth_test(IpAddress::V4(0x0a00_0001), Some(4)), &group);
    assert!(matches!(r, Err(NetworkingError::Ipv4NotSupported)));
}

#[test]
fn plan_refuses_ipv4_without_index_as_ipv4() {
    let group = Endpoint::new(GROUP, 7475);
    let r = broadcast_socket_plan(&eth_test(IpAddress::V4(0x0a00_0001), None), &group);
    assert!(matches!(r, Err(NetworkingError::Ipv4NotSupported)));
}

#[test]
fn plan_needs_interface_index() {
    let group = Endpoint::new(GROUP, 7475);
    let r = broadcast_socket_plan(&eth_test(IpAddress::V6(0xfe80 << 112 | 1), None), &group);
    assert!(matches!(r, Err(NetworkingError::UnableToFindInterfaceNumber)));
}
