use crosswind::{peer_targets, Endpoint, IpAddress, RELAY_PORT};

#[test]
fn first_ipv6_of_each_peer() {
    let peers = vec![
        vec![IpAddress::V4(0x6440_0001), IpAddress::V6(0xfd7a << 112 | 1), IpAddress::V6(7)],
        vec![IpAddress::V4(0x6440_0002)],
        vec![],
        vec![IpAddress::V6(0xfd7a << 112 | 3)],
    ];
    let targets = peer_targets(&peers, RELAY_PORT);
    assert_eq!(
        targets,
        vec![Endpoint::new(0xfd7a << 112 | 1, 9908), Endpoint::new(0xfd7a << 112 | 3, 9908)]
    );
}

#[test]
fn no_peers_no_targets() {
    assert!(peer_targets(&vec![], RELAY_PORT).is_empty());
}
