use aw_watcher_network::address::{net_contains, IpAddrValue, NetValue};
use aw_watcher_network::config::{ConfigFile, EntryValue, LocationsValue, MappingEntry};
use aw_watcher_network::location::{match_parsed_entry, LocationRules};

#[test]
fn ipv4_network_membership() {
    let net = NetValue::V4 { addr: 0x0a14_0000, prefix_len: 16 };
    assert!(net_contains(net, IpAddrValue::V4(0x0a14_0506)));
    assert!(net_contains(net, IpAddrValue::V4(0x0a14_ffff)));
    assert!(!net_contains(net, IpAddrValue::V4(0x0a15_0506)));
    assert!(!net_contains(net, IpAddrValue::V4(0x0a13_ffff)));
}

#[test]
fn prefix_zero_and_full_prefix() {
    let all = NetValue::V4 { addr: 0x0102_0304, prefix_len: 0 };
    assert!(net_contains(all, IpAddrValue::V4(0)));
    assert!(net_contains(all, IpAddrValue::V4(u32::MAX)));
    let one = NetValue::V4 { addr: 0x0102_0304, prefix_len: 32 };
    assert!(net_contains(one, IpAddrValue::V4(0x0102_0304)));
    assert!(!net_contains(one, IpAddrValue::V4(0x0102_0305)));
    let all6 = NetValue::V6 { addr: 1, prefix_len: 0 };
    assert!(net_contains(all6, IpAddrValue::V6(u128::MAX)));
    let one6 = NetValue::V6 { addr: 1, prefix_len: 128 };
    assert!(net_contains(one6, IpAddrValue::V6(1)));
    assert!(!net_contains(one6, IpAddrValue::V6(2)));
}

#[test]
fn ipv6_network_membership() {
    let net = NetValue::V6 { addr: 0x2001_0db8 << 96, prefix_len: 32 };
    assert!(net_contains(net, IpAddrValue::V6((0x2001_0db8 << 96) | 42)));
    assert!(!net_contains(net, IpAddrValue::V6(0x2001_0db9 << 96)));
}

#[test]
fn host_bits_of_a_network_are_ignored() {
    let net = NetValue::V4 { addr: 0x0a14_0506, prefix_len: 16 };
    assert!(net_contains(net, IpAddrValue::V4(0x0a14_0000)));
}

#[test]
fn families_do_not_mix() {
    assert!(!net_contains(NetValue::V4 { addr: 0, prefix_len: 0 }, IpAddrValue::V6(0)));
    assert!(!net_contains(NetValue::V6 { addr: 0, prefix_len: 0 }, IpAddrValue::V4(0)));
}

#[test]
fn parsed_entry_decision() {
    let ip = IpAddrValue::V4(0x0102_0304);
    // a network entry decides by membership, whatever the address parse gave
    let net = NetValue::V4 { addr: 0x0102_0000, prefix_len: 16 };
    assert!(match_parsed_entry(Some(net), None, ip));
    let other_net = NetValue::V4 { addr: 0x0a00_0000, prefix_len: 8 };
    assert!(!match_parsed_entry(Some(other_net), Some(ip), ip));
    // otherwise the entry must be the very address
    assert!(match_parsed_entry(None, Some(ip), ip));
    assert!(!match_parsed_entry(None, Some(IpAddrValue::V4(0x0102_0305)), ip));
    assert!(!match_parsed_entry(None, None, ip));
}

#[test]
fn resolve_addr_takes_a_parsed_address() {
    let config = ConfigFile {
        locations: Some(LocationsValue::Mapping(vec![MappingEntry {
            key: Some("home".to_string()),
            value: EntryValue::Sequence(vec![Some("192.168.0.0/24".to_string())]),
        }])),
    };
    let rules = LocationRules::from_config(config);
    assert_eq!(rules.resolve_addr(IpAddrValue::V4(0xc0a8_0011)).as_deref(), Some("home"));
    assert_eq!(rules.resolve_addr(IpAddrValue::V4(0xc0a8_0111)), None);
    assert_eq!(rules.resolve_addr(IpAddrValue::V6(0xc0a8_0011)), None);
}
