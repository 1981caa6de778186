use aw_watcher_network::cli::{DEFAULT_INTERVAL_SECS, DEFAULT_PORT};
use aw_watcher_network::config::{ConfigFile, EntryValue, LocationsValue, MappingEntry};
use aw_watcher_network::heartbeat::{bucket_id, heartbeat_data, UNKNOWN};
use aw_watcher_network::location::LocationRules;
use aw_watcher_network::net::ConnectionType;

fn home_rules() -> LocationRules {
    LocationRules::from_config(ConfigFile {
        locations: Some(LocationsValue::Mapping(vec![MappingEntry {
            key: Some("home".to_string()),
            value: EntryValue::Sequence(vec![Some("145.10.0.0/16".to_string())]),
        }])),
    })
}

#[test]
fn defaults() {
    assert_eq!(DEFAULT_PORT, 5600);
    assert_eq!(DEFAULT_INTERVAL_SECS, 60);
    assert_eq!(UNKNOWN, "unknown");
}

#[test]
fn bucket_ids() {
    assert_eq!(bucket_id(false, "laptop"), "aw-watcher-network_laptop");
    assert_eq!(bucket_id(true, "laptop"), "aw-watcher-network-testing_laptop");
}

#[test]
fn heartbeat_with_everything_known() {
    let rules = home_rules();
    let d = heartbeat_data(
        Some(&rules),
        Some("145.10.3.4".to_string()),
        Some("192.168.1.1".to_string()),
        Some(ConnectionType::Lan),
    );
    assert_eq!(d.public_ip, "145.10.3.4");
    assert_eq!(d.gateway_ip, "192.168.1.1");
    assert_eq!(d.connection_type, "lan");
    assert_eq!(d.location, "home");
    assert_eq!(d.title, "home");
    let entries = d.entries();
    let keys: Vec<&str> = entries.iter().map(|(k, _)| *k).collect();
    assert_eq!(keys, vec!["public_ip", "gateway_ip", "connection_type", "location", "title"]);
    assert_eq!(entries[4].1, "home");
}

#[test]
fn heartbeat_with_nothing_known() {
    let d = heartbeat_data(None, None, None, None);
    assert_eq!(d.public_ip, "unknown");
    assert_eq!(d.gateway_ip, "unknown");
    assert_eq!(d.connection_type, "unknown");
    assert_eq!(d.location, "unknown");
    assert_eq!(d.title, "unknown");
}

#[test]
fn heartbeat_location_unknown_outside_rules() {
    let rules = home_rules();
    let d = heartbeat_data(Some(&rules), Some("8.8.8.8".to_string()), None, Some(ConnectionType::Wifi));
    assert_eq!(d.connection_type, "wifi");
    assert_eq!(d.location, "unknown");
    assert_eq!(d.title, "unknown");
    let d = heartbeat_data(Some(&rules), None, None, None);
    assert_eq!(d.location, "unknown");
}
