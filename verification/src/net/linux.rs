//! Interface names as Linux and the other Unix systems report them
//! ("wlan0", "wlx…", "eth0", "enp3s0", ...).
use vstd::prelude::*;

use crate::net::ConnectionType;
use crate::text::{ascii_lowercase, has_prefix, lowercase_chars, starts_with};

verus! {

/// The connection type of a Linux interface name: wireless where the
/// lower-cased name begins with "wlan" or "wl"; else wired where it begins
/// with "eth", "enp", "eno" or "ens"; else unknown.
pub open spec fn linux_kind(name: Seq<char>) -> Option<ConnectionType> {
    let lower = ascii_lowercase(name);
    if has_prefix(lower, "wlan"@) || has_prefix(lower, "wl"@) {
        Some(ConnectionType::Wifi)
    } else if has_prefix(lower, "eth"@) || has_prefix(lower, "enp"@) || has_prefix(lower, "eno"@)
        || has_prefix(lower, "ens"@) {
        Some(ConnectionType::Lan)
    } else {
        None
    }
}

/// Classifies a Linux interface name (see `linux_kind`).
pub fn classify_connection_type_impl(name: &str) -> (r: Option<ConnectionType>)
    ensures
        r == linux_kind(name@),
{
    let lower = lowercase_chars(name);
    if starts_with(&lower, "wlan") || starts_with(&lower, "wl") {
        return Some(ConnectionType::Wifi);
    }
    if starts_with(&lower, "eth") || starts_with(&lower, "enp") || starts_with(&lower, "eno")
        || starts_with(&lower, "ens") {
        return Some(ConnectionType::Lan);
    }
    None
}

/// On Unix systems a name is wireless exactly where its lower-cased form
/// begins with "wl" (every name that begins with "wlan" does).
pub proof fn lemma_wireless_iff_wl_prefix(name: Seq<char>)
    ensures
        linux_kind(name) == Some(ConnectionType::Wifi) <==> has_prefix(
            ascii_lowercase(name),
            "wl"@,
        ),
{
    reveal_strlit("wlan");
    reveal_strlit("wl");
    let lower = ascii_lowercase(name);
    if has_prefix(lower, "wlan"@) {
        assert(lower.subrange(0, 2) == lower.subrange(0, 4).subrange(0, 2));
        assert(lower.subrange(0, 2) =~= "wl"@);
    }
}

/// On Unix systems, a name whose lower-cased form begins with "eth",
/// "enp", "eno" or "ens" (and so not with "wl") is wired.
pub proof fn lemma_wired_prefixes(name: Seq<char>, marker: Seq<char>)
    requires
        marker == "eth"@ || marker == "enp"@ || marker == "eno"@ || marker == "ens"@,
        3 <= name.len(),
        ascii_lowercase(name).subrange(0, 3) == marker,
    ensures
        linux_kind(name) == Some(ConnectionType::Lan),
{
    reveal_strlit("eth");
    reveal_strlit("enp");
    reveal_strlit("eno");
    reveal_strlit("ens");
    reveal_strlit("wl");
    reveal_strlit("wlan");
    let lower = ascii_lowercase(name);
    assert(lower[0] == lower.subrange(0, 3)[0]);
    if has_prefix(lower, "wl"@) {
        assert(lower[0] == lower.subrange(0, 2)[0]);
    }
    if has_prefix(lower, "wlan"@) {
        assert(lower[0] == lower.subrange(0, 4)[0]);
    }
}

/// On Unix systems, a name whose lower-cased form begins with none of
/// "wl", "eth", "enp", "eno", "ens" is unknown.
pub proof fn lemma_other_names_unknown(name: Seq<char>)
    requires
        !(2 <= name.len() && ascii_lowercase(name).subrange(0, 2) == "wl"@),
        !(3 <= name.len() && ascii_lowercase(name).subrange(0, 3) == "eth"@),
        !(3 <= name.len() && ascii_lowercase(name).subrange(0, 3) == "enp"@),
        !(3 <= name.len() && ascii_lowercase(name).subrange(0, 3) == "eno"@),
        !(3 <= name.len() && ascii_lowercase(name).subrange(0, 3) == "ens"@),
    ensures
        linux_kind(name) is None,
{
    reveal_strlit("eth");
    reveal_strlit("enp");
    reveal_strlit("eno");
    reveal_strlit("ens");
    reveal_strlit("wl");
    reveal_strlit("wlan");
    let lower = ascii_lowercase(name);
    assert(lower.len() == name.len());
    if has_prefix(lower, "wlan"@) {
        assert(lower.subrange(0, 2) =~= lower.subrange(0, 4).subrange(0, 2));
        assert(lower.subrange(0, 2) =~= "wl"@);
    }
}

} // verus!
