//! Interface names as macOS reports them ("en0", "awdl0", ...).
use vstd::prelude::*;

use crate::net::ConnectionType;
use crate::text::{chars_of, equals, has_prefix, starts_with};

verus! {

/// The connection type of a macOS interface name: wireless for "en0" and
/// for names beginning with "awdl"; else wired for names beginning with
/// "en"; else unknown. Case matters.
pub open spec fn macos_kind(name: Seq<char>) -> Option<ConnectionType> {
    if name == "en0"@ || has_prefix(name, "awdl"@) {
        Some(ConnectionType::Wifi)
    } else if has_prefix(name, "en"@) {
        Some(ConnectionType::Lan)
    } else {
        None
    }
}

/// Classifies a macOS interface name (see `macos_kind`).
pub fn classify_connection_type_impl(name: &str) -> (r: Option<ConnectionType>)
    ensures
        r == macos_kind(name@),
{
    let chars = chars_of(name);
    if equals(&chars, "en0") || starts_with(&chars, "awdl") {
        return Some(ConnectionType::Wifi);
    }
    if starts_with(&chars, "en") {
        return Some(ConnectionType::Lan);
    }
    None
}

/// On macOS a name is wired exactly where it begins with "en" and is not
/// "en0".
pub proof fn lemma_wired_iff_en_prefix(name: Seq<char>)
    ensures
        macos_kind(name) == Some(ConnectionType::Lan) <==> has_prefix(name, "en"@) && name
            != "en0"@,
{
    reveal_strlit("en");
    reveal_strlit("awdl");
    if has_prefix(name, "en"@) && has_prefix(name, "awdl"@) {
        assert(name.subrange(0, 2)[0] == name[0]);
        assert(name.subrange(0, 4)[0] == name[0]);
    }
}

/// On macOS, "en0" and every name beginning with "awdl" are wireless.
pub proof fn lemma_wireless_names(name: Seq<char>)
    requires
        name == "en0"@ || (4 <= name.len() && name.subrange(0, 4) == "awdl"@),
    ensures
        macos_kind(name) == Some(ConnectionType::Wifi),
{
    reveal_strlit("awdl");
}

/// On macOS, a name that begins with neither "en" nor "awdl" is unknown.
pub proof fn lemma_other_names_unknown(name: Seq<char>)
    requires
        !(2 <= name.len() && name.subrange(0, 2) == "en"@),
        !(4 <= name.len() && name.subrange(0, 4) == "awdl"@),
    ensures
        macos_kind(name) is None,
{
    reveal_strlit("en");
    reveal_strlit("en0");
    reveal_strlit("awdl");
    if name == "en0"@ {
        assert(name.subrange(0, 2) =~= "en"@);
    }
}

} // verus!
