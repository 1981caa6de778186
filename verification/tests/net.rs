use aw_watcher_network::net::{
    classify_connection_type, gateway_and_type, public_ip_endpoint, ConnectionType,
    DefaultInterface, LookupStep, Platform, PublicIpLookup, ENDPOINT_COUNT, IP_FIELD,
};

#[test]
fn windows_classification() {
    assert_eq!(classify_connection_type(Platform::Windows, "Wi-Fi"), Some(ConnectionType::Wifi));
    assert_eq!(
        classify_connection_type(Platform::Windows, "WLAN Adapter"),
        Some(ConnectionType::Wifi)
    );
    assert_eq!(classify_connection_type(Platform::Windows, "Ethernet 2"), Some(ConnectionType::Lan));
}

#[test]
fn macos_classification() {
    assert_eq!(classify_connection_type(Platform::MacOs, "en0"), Some(ConnectionType::Wifi));
    assert_eq!(classify_connection_type(Platform::MacOs, "awdl0"), Some(ConnectionType::Wifi));
    assert_eq!(classify_connection_type(Platform::MacOs, "en2"), Some(ConnectionType::Lan));
    assert_eq!(classify_connection_type(Platform::MacOs, "en5"), Some(ConnectionType::Lan));
}

#[test]
fn linux_classification() {
    assert_eq!(classify_connection_type(Platform::Unix, "wlan0"), Some(ConnectionType::Wifi));
    assert_eq!(classify_connection_type(Platform::Unix, "wlx123"), Some(ConnectionType::Wifi));
    assert_eq!(classify_connection_type(Platform::Unix, "eth0"), Some(ConnectionType::Lan));
    assert_eq!(classify_connection_type(Platform::Unix, "enp3s0"), Some(ConnectionType::Lan));
    assert_eq!(classify_connection_type(Platform::Unix, "eno1"), Some(ConnectionType::Lan));
    assert_eq!(classify_connection_type(Platform::Unix, "ens33"), Some(ConnectionType::Lan));
}

#[test]
fn connection_type_labels() {
    assert_eq!(ConnectionType::Wifi.as_str(), "wifi");
    assert_eq!(ConnectionType::Lan.as_str(), "lan");
}

#[test]
fn windows_names_ignore_case_and_prefer_wireless() {
    assert_eq!(classify_connection_type(Platform::Windows, "WIFI"), Some(ConnectionType::Wifi));
    assert_eq!(
        classify_connection_type(Platform::Windows, "Intel Wireless-AC wlan"),
        Some(ConnectionType::Wifi)
    );
    assert_eq!(
        classify_connection_type(Platform::Windows, "Ethernet over Wi-Fi"),
        Some(ConnectionType::Wifi)
    );
    assert_eq!(classify_connection_type(Platform::Windows, "ETHERNET"), Some(ConnectionType::Lan));
    assert_eq!(classify_connection_type(Platform::Windows, "Bluetooth Network"), None);
    assert_eq!(classify_connection_type(Platform::Windows, ""), None);
}

#[test]
fn macos_names_are_case_sensitive() {
    assert_eq!(classify_connection_type(Platform::MacOs, "EN0"), None);
    assert_eq!(classify_connection_type(Platform::MacOs, "en"), Some(ConnectionType::Lan));
    assert_eq!(classify_connection_type(Platform::MacOs, "en00"), Some(ConnectionType::Lan));
    assert_eq!(classify_connection_type(Platform::MacOs, "lo0"), None);
    assert_eq!(classify_connection_type(Platform::MacOs, "utun3"), None);
}

#[test]
fn unix_names_by_prefix() {
    assert_eq!(classify_connection_type(Platform::Unix, "WLP2S0"), Some(ConnectionType::Wifi));
    assert_eq!(classify_connection_type(Platform::Unix, "w"), None);
    assert_eq!(classify_connection_type(Platform::Unix, "lo"), None);
    assert_eq!(classify_connection_type(Platform::Unix, "en0"), None);
    assert_eq!(classify_connection_type(Platform::Unix, "docker0"), None);
    assert_eq!(classify_connection_type(Platform::Unix, "Eth1"), Some(ConnectionType::Lan));
}

#[test]
fn non_ascii_names_are_handled() {
    assert_eq!(classify_connection_type(Platform::Windows, "Ärger-WiFi"), Some(ConnectionType::Wifi));
    assert_eq!(classify_connection_type(Platform::Unix, "ëth0"), None);
}

#[test]
fn endpoints_in_order() {
    assert_eq!(ENDPOINT_COUNT, 2);
    assert_eq!(public_ip_endpoint(0), Some("https://api64.ipify.org?format=json"));
    assert_eq!(public_ip_endpoint(1), Some("https://api.ipify.org?format=json"));
    assert_eq!(public_ip_endpoint(2), None);
    assert_eq!(IP_FIELD, "ip");
}

#[test]
fn lookup_stops_at_first_address() {
    let (mut lookup, step) = PublicIpLookup::start();
    assert!(matches!(step, LookupStep::Fetch("https://api64.ipify.org?format=json")));
    match lookup.on_reply(Some("145.10.1.2".to_string())) {
        LookupStep::Done(Some(ip)) => assert_eq!(ip, "145.10.1.2"),
        _ => panic!("expected the lookup to end with the address"),
    }
}

#[test]
fn lookup_falls_back_then_gives_up() {
    let (mut lookup, _) = PublicIpLookup::start();
    assert!(matches!(
        lookup.on_reply(None),
        LookupStep::Fetch("https://api.ipify.org?format=json")
    ));
    assert!(matches!(lookup.on_reply(None), LookupStep::Done(None)));
    assert!(matches!(lookup.on_reply(None), LookupStep::Done(None)));
}

#[test]
fn lookup_second_service_answers() {
    let (mut lookup, _) = PublicIpLookup::start();
    assert!(matches!(lookup.on_reply(None), LookupStep::Fetch(_)));
    match lookup.on_reply(Some("2001:db8::5".to_string())) {
        LookupStep::Done(Some(ip)) => assert_eq!(ip, "2001:db8::5"),
        _ => panic!("expected the lookup to end with the address"),
    }
}

#[test]
fn gateway_and_type_of_default_interface() {
    assert_eq!(gateway_and_type(Platform::Unix, None), (None, None));
    let iface = DefaultInterface {
        name: "wlan0".to_string(),
        gateway_ip: Some("192.168.1.1".to_string()),
    };
    assert_eq!(
        gateway_and_type(Platform::Unix, Some(iface)),
        (Some("192.168.1.1".to_string()), Some(ConnectionType::Wifi))
    );
    let iface = DefaultInterface { name: "tun0".to_string(), gateway_ip: None };
    assert_eq!(gateway_and_type(Platform::Unix, Some(iface)), (None, None));
}
