use crosswind::{get_interface, non_loopback_interfaces, Interface, IpAddress};

fn iface(name: &str, addr: IpAddress, text: &str, index: Option<u32>) -> Interface {
    Interface { name: name.to_string(), addr, addr_text: text.to_string(), index }
}

const FE80_1: u128 = 0xfe80_0000_0000_0000_0000_0000_0000_0001;

fn host() -> Vec<Interface> {
    vec![
        iface("lo", IpAddress::V6(1), "::1", Some(1)),
        iface("lo", IpAddress::V4(0x7f00_0001), "127.0.0.1", Some(1)),
        iface("eth0", IpAddress::V4(0xc0a8_0102), "192.168.1.2", Some(2)),
        iface("eth0", IpAddress::V6(FE80_1), "fe80::1", Some(2)),
    ]
}

#[test]
fn unknown_identifier_is_not_found() {
    assert!(get_interface(host(), "nonexistent0").is_none());
}

#[test]
fn resolves_by_name_to_ipv6_address() {
    let found = get_interface(host(), "eth0").expect("eth0 resolves");
    assert_eq!(found.name, "eth0");
    assert_eq!(found.addr, IpAddress::V6(FE80_1));
    assert_eq!(found.index, Some(2));
}

#[test]
fn resolves_by_address_text() {
    let found = get_interface(host(), "fe80::1").expect("address resolves");
    assert_eq!(found.name, "eth0");
    assert_eq!(found.addr_text, "fe80::1");
}

#[test]
fn address_text_is_not_normalised() {
    assert!(get_interface(host(), "fe80:0:0:0:0:0:0:1").is_none());
}

#[test]
fn loopback_is_never_resolved() {
    assert!(get_interface(host(), "lo").is_none());
    assert!(get_interface(host(), "::1").is_none());
}

#[test]
fn ipv4_only_interface_is_not_resolved() {
    let interfaces = vec![iface("wlan0", IpAddress::V4(0x0a00_0005), "10.0.0.5", Some(3))];
    assert!(get_interface(interfaces, "wlan0").is_none());
    let interfaces = vec![iface("wlan0", IpAddress::V4(0x0a00_0005), "10.0.0.5", Some(3))];
    assert!(get_interface(interfaces, "10.0.0.5").is_none());
}

#[test]
fn first_matching_interface_wins() {
    let interfaces = vec![
        iface("tun0", IpAddress::V6(FE80_1 + 5), "fe80::6", Some(7)),
        iface("tun0", IpAddress::V6(FE80_1 + 9), "fe80::a", Some(8)),
    ];
    let found = get_interface(interfaces, "tun0").expect("tun0 resolves");
    assert_eq!(found.index, Some(7));
}

#[test]
fn resolution_is_repeatable() {
    let a = get_interface(host(), "eth0").expect("first");
    let b = get_interface(host(), "eth0").expect("second");
    assert_eq!(a.name, b.name);
    assert_eq!(a.addr, b.addr);
    assert_eq!(a.index, b.index);
}

#[test]
fn loopback_filter_keeps_order() {
    let kept = non_loopback_interfaces(host());
    assert_eq!(kept.len(), 2);
    assert_eq!(kept[0].addr, IpAddress::V4(0xc0a8_0102));
    assert_eq!(kept[1].addr, IpAddress::V6(FE80_1));
}

#[test]
fn whole_ipv4_loopback_block_is_filtered() {
    let interfaces = vec![
        iface("lo", IpAddress::V4(0x7f01_0203), "127.1.2.3", Some(1)),
        iface("eth1", IpAddress::V4(0x8000_0001), "128.0.0.1", Some(4)),
    ];
    let kept = non_loopback_interfaces(interfaces);
    assert_eq!(kept.len(), 1);
    assert_eq!(kept[0].name, "eth1");
}

#[test]
fn loopback_predicate() {
    assert!(IpAddress::V6(1).is_loopback());
    assert!(!IpAddress::V6(0).is_loopback());
    assert!(IpAddress::V4(0x7fff_ffff).is_loopback());
    assert!(!IpAddress::V4(0x7e00_0001).is_loopback());
    assert!(IpAddress::V6(FE80_1).is_ipv6());
    assert!(!IpAddress::V4(1).is_ipv6());
}
