use aw_watcher_network::config::{ConfigFile, EntryValue, LocationsValue, MappingEntry};
use aw_watcher_network::location::LocationRules;

fn location(name: &str, entries: &[&str]) -> MappingEntry {
    MappingEntry {
        key: Some(name.to_string()),
        value: EntryValue::Sequence(entries.iter().map(|e| Some(e.to_string())).collect()),
    }
}

fn config(pairs: Vec<MappingEntry>) -> ConfigFile {
    ConfigFile { locations: Some(LocationsValue::Mapping(pairs)) }
}

#[test]
fn resolves_exact_ip() {
    // home:
    //   - 1.2.3.4
    let config = config(vec![location("home", &["1.2.3.4"])]);
    let rules = LocationRules::from_config(config);
    assert_eq!(rules.resolve("1.2.3.4").as_deref(), Some("home"));
    assert_eq!(rules.resolve("1.2.3.5"), None);
}

#[test]
fn resolves_cidr() {
    // office:
    //   - 10.20.0.0/16
    let config = config(vec![location("office", &["10.20.0.0/16"])]);
    let rules = LocationRules::from_config(config);
    assert_eq!(rules.resolve("10.20.5.6").as_deref(), Some("office"));
    assert_eq!(rules.resolve("10.21.5.6"), None);
}

#[test]
fn resolves_first_match_only() {
    // home:
    //   - 10.0.0.0/8
    // office:
    //   - 10.0.0.0/8
    let config = config(vec![
        location("home", &["10.0.0.0/8"]),
        location("office", &["10.0.0.0/8"]),
    ]);
    let rules = LocationRules::from_config(config);
    assert_eq!(rules.resolve("10.1.2.3").as_deref(), Some("home"));
}

#[test]
fn resolves_multiple_entries_ipv4() {
    // office:
    //   - 192.0.2.10
    //   - 192.0.2.20
    let config = config(vec![location("office", &["192.0.2.10", "192.0.2.20"])]);
    let rules = LocationRules::from_config(config);
    assert_eq!(rules.resolve("192.0.2.10").as_deref(), Some("office"));
    assert_eq!(rules.resolve("192.0.2.20").as_deref(), Some("office"));
}

#[test]
fn resolves_ipv6_exact() {
    // office:
    //   - 2001:db8::1
    let config = config(vec![location("office", &["2001:db8::1"])]);
    let rules = LocationRules::from_config(config);
    assert_eq!(rules.resolve("2001:db8::1").as_deref(), Some("office"));
    assert_eq!(rules.resolve("2001:db8::2"), None);
}

#[test]
fn readme_example_config() {
    // locations:
    //   home:
    //     - 145.10.0.0/16
    //   office:
    //     - 83.160.45.12
    let config = config(vec![
        location("home", &["145.10.0.0/16"]),
        location("office", &["83.160.45.12"]),
    ]);
    let rules = LocationRules::from_config(config);
    assert_eq!(rules.resolve("145.10.200.7").as_deref(), Some("home"));
    assert_eq!(rules.resolve("83.160.45.12").as_deref(), Some("office"));
    assert_eq!(rules.resolve("83.160.45.13"), None);
}

#[test]
fn later_location_matches_when_earlier_ones_do_not() {
    let config = config(vec![
        location("home", &["1.2.3.4"]),
        location("office", &["10.0.0.0/8", "192.168.1.1"]),
    ]);
    let rules = LocationRules::from_config(config);
    assert_eq!(rules.resolve("192.168.1.1").as_deref(), Some("office"));
    assert_eq!(rules.resolve("10.255.255.255").as_deref(), Some("office"));
}

#[test]
fn unparsable_public_ip_resolves_to_nothing() {
    let config = config(vec![location("anywhere", &["0.0.0.0/0", "::/0"])]);
    let rules = LocationRules::from_config(config);
    assert_eq!(rules.resolve("unknown"), None);
    assert_eq!(rules.resolve(""), None);
    assert_eq!(rules.resolve("1.2.3.4.5"), None);
    assert_eq!(rules.resolve("8.8.8.8").as_deref(), Some("anywhere"));
    assert_eq!(rules.resolve("2001:db8::7").as_deref(), Some("anywhere"));
}

#[test]
fn address_families_never_match_each_other() {
    let config = config(vec![location("v4", &["0.0.0.0/0"]), location("v6", &["::ffff:1.2.3.4"])]);
    let rules = LocationRules::from_config(config);
    assert_eq!(rules.resolve("::1"), None);
    assert_eq!(rules.resolve("1.2.3.4").as_deref(), Some("v4"));
    assert_eq!(rules.resolve("::ffff:1.2.3.4").as_deref(), Some("v6"));
}

#[test]
fn network_entry_keeps_host_bits_but_matches_whole_network() {
    let config = config(vec![location("lab", &["10.20.5.6/16"])]);
    let rules = LocationRules::from_config(config);
    assert_eq!(rules.resolve("10.20.0.1").as_deref(), Some("lab"));
    assert_eq!(rules.resolve("10.21.0.1"), None);
}

#[test]
fn invalid_entries_never_match() {
    let config = config(vec![location("broken", &["not an ip", "10.0.0.0/33", "300.1.1.1"])]);
    let rules = LocationRules::from_config(config);
    assert_eq!(rules.resolve("10.0.0.1"), None);
    assert_eq!(rules.resolve("300.1.1.1"), None);
}

#[test]
fn non_string_keys_and_items_are_skipped() {
    let config = config(vec![
        MappingEntry {
            key: None,
            value: EntryValue::Sequence(vec![Some("1.1.1.1".to_string())]),
        },
        MappingEntry {
            key: Some("home".to_string()),
            value: EntryValue::Sequence(vec![None, Some("2.2.2.2".to_string()), None]),
        },
        MappingEntry { key: Some("nowhere".to_string()), value: EntryValue::Other },
    ]);
    let rules = LocationRules::from_config(config);
    assert_eq!(rules.resolve("1.1.1.1"), None);
    assert_eq!(rules.resolve("2.2.2.2").as_deref(), Some("home"));
}

#[test]
fn locations_that_are_not_a_mapping_give_no_rules() {
    let absent = LocationRules::from_config(ConfigFile { locations: None });
    assert_eq!(absent.resolve("1.2.3.4"), None);
    let other = LocationRules::from_config(ConfigFile { locations: Some(LocationsValue::Other) });
    assert_eq!(other.resolve("1.2.3.4"), None);
}
