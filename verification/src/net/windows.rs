//! Interface names as Windows reports them ("Wi-Fi", "Ethernet 2", ...).
use vstd::prelude::*;

use crate::net::ConnectionType;
use crate::text::{ascii_lowercase, contains, has_infix, lowercase_chars, occurs_at};

verus! {

/// The connection type of a Windows interface name: wireless where the
/// lower-cased name contains "wlan", "wi-fi" or "wifi"; else wired where it
/// contains "ethernet"; else unknown.
pub open spec fn windows_kind(name: Seq<char>) -> Option<ConnectionType> {
    let lower = ascii_lowercase(name);
    if has_infix(lower, "wlan"@) || has_infix(lower, "wi-fi"@) || has_infix(lower, "wifi"@) {
        Some(ConnectionType::Wifi)
    } else if has_infix(lower, "ethernet"@) {
        Some(ConnectionType::Lan)
    } else {
        None
    }
}

/// Classifies a Windows interface name (see `windows_kind`).
pub fn classify_connection_type_impl(name: &str) -> (r: Option<ConnectionType>)
    ensures
        r == windows_kind(name@),
{
    let lower = lowercase_chars(name);
    if contains(&lower, "wlan") || contains(&lower, "wi-fi") || contains(&lower, "wifi") {
        return Some(ConnectionType::Wifi);
    }
    if contains(&lower, "ethernet") {
        return Some(ConnectionType::Lan);
    }
    None
}

/// `p` occurs in `s` starting at index `i`, written out.
pub open spec fn at(s: Seq<char>, p: Seq<char>, i: int) -> bool {
    0 <= i && i + p.len() <= s.len() && s.subrange(i, i + p.len()) == p
}

/// On Windows, a name whose lower-cased form holds "wlan", "wi-fi" or
/// "wifi" at any position is wireless.
pub proof fn lemma_wireless_marker_anywhere(name: Seq<char>, marker: Seq<char>, i: int)
    requires
        marker == "wlan"@ || marker == "wi-fi"@ || marker == "wifi"@,
        at(ascii_lowercase(name), marker, i),
    ensures
        windows_kind(name) == Some(ConnectionType::Wifi),
{
    assert(occurs_at(ascii_lowercase(name), marker, i));
}

/// On Windows, a name whose lower-cased form holds "ethernet" at any
/// position, and none of "wlan", "wi-fi", "wifi" at any position, is wired.
pub proof fn lemma_ethernet_anywhere(name: Seq<char>, i: int)
    requires
        at(ascii_lowercase(name), "ethernet"@, i),
        forall|k: int| !#[trigger] at(ascii_lowercase(name), "wlan"@, k),
        forall|k: int| !#[trigger] at(ascii_lowercase(name), "wi-fi"@, k),
        forall|k: int| !#[trigger] at(ascii_lowercase(name), "wifi"@, k),
    ensures
        windows_kind(name) == Some(ConnectionType::Lan),
{
    let lower = ascii_lowercase(name);
    assert(occurs_at(lower, "ethernet"@, i));
    assert forall|k: int| !#[trigger] occurs_at(lower, "wlan"@, k) by {
        assert(!at(lower, "wlan"@, k));
    }
    assert forall|k: int| !#[trigger] occurs_at(lower, "wi-fi"@, k) by {
        assert(!at(lower, "wi-fi"@, k));
    }
    assert forall|k: int| !#[trigger] occurs_at(lower, "wifi"@, k) by {
        assert(!at(lower, "wifi"@, k));
    }
}

/// On Windows, a name whose lower-cased form holds none of "wlan",
/// "wi-fi", "wifi" and "ethernet" at any position is unknown.
pub proof fn lemma_no_marker_unknown(name: Seq<char>)
    requires
        forall|k: int| !#[trigger] at(ascii_lowercase(name), "wlan"@, k),
        forall|k: int| !#[trigger] at(ascii_lowercase(name), "wi-fi"@, k),
        forall|k: int| !#[trigger] at(ascii_lowercase(name), "wifi"@, k),
        forall|k: int| !#[trigger] at(ascii_lowercase(name), "ethernet"@, k),
    ensures
        windows_kind(name) is None,
{
    let lower = ascii_lowercase(name);
    assert forall|k: int| !#[trigger] occurs_at(lower, "wlan"@, k) by {
        assert(!at(lower, "wlan"@, k));
    }
    assert forall|k: int| !#[trigger] occurs_at(lower, "wi-fi"@, k) by {
        assert(!at(lower, "wi-fi"@, k));
    }
    assert forall|k: int| !#[trigger] occurs_at(lower, "wifi"@, k) by {
        assert(!at(lower, "wifi"@, k));
    }
    assert forall|k: int| !#[trigger] occurs_at(lower, "ethernet"@, k) by {
        assert(!at(lower, "ethernet"@, k));
    }
}

} // verus!
