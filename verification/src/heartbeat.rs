//! The bucket that heartbeats go to and the data that each one carries.
use vstd::prelude::*;
use vstd::string::StringExecFns;

use crate::address::spec_parse_ip_addr;
use crate::location::{first_match, opt_text, resolve_text, LocationRules};
use crate::net::{connection_label, ConnectionType};

verus! {

/// The value of a heartbeat field that could not be determined.
pub const UNKNOWN: &'static str = "unknown";

/// The client name, and the bucket name outside of testing.
pub const CLIENT_NAME: &'static str = "aw-watcher-network";

/// The bucket name when testing.
pub const TESTING_BUCKET: &'static str = "aw-watcher-network-testing";

/// The type of the bucket.
pub const BUCKET_TYPE: &'static str = "network";

/// A known text, or "unknown".
pub open spec fn or_unknown(s: Option<Seq<char>>) -> Seq<char> {
    match s {
        Some(t) => t,
        None => "unknown"@,
    }
}

/// The bucket id: the bucket name (the testing one when testing), an
/// underscore, and the host name.
pub open spec fn spec_bucket_id(testing: bool, hostname: Seq<char>) -> Seq<char> {
    (if testing {
        "aw-watcher-network-testing"@
    } else {
        "aw-watcher-network"@
    }) + "_"@ + hostname
}

/// The id of the bucket that heartbeats go to.
pub fn bucket_id(testing: bool, hostname: &str) -> (id: String)
    ensures
        id@ == spec_bucket_id(testing, hostname@),
{
    let base = if testing {
        TESTING_BUCKET
    } else {
        CLIENT_NAME
    };
    let mut id = String::from_str(base);
    id.append("_");
    id.append(hostname);
    id
}

/// The data of one heartbeat.
#[derive(Debug)]
pub struct HeartbeatData {
    pub public_ip: String,
    pub gateway_ip: String,
    pub connection_type: String,
    pub location: String,
    pub title: String,
}

/// The label of an optional connection type.
pub open spec fn opt_label(t: Option<ConnectionType>) -> Option<Seq<char>> {
    match t {
        Some(k) => Some(connection_label(k)),
        None => None,
    }
}

/// The location of a public address: resolved by the rules where there
/// are rules, else unknown.
pub open spec fn location_of(rules: Option<Seq<(Seq<char>, Seq<Seq<char>>)>>, public_ip: Seq<char>) -> Seq<char> {
    match rules {
        Some(r) => or_unknown(resolve_text(r, public_ip)),
        None => "unknown"@,
    }
}

fn text_or_unknown(s: Option<String>) -> (r: String)
    ensures
        r@ == or_unknown(opt_text(s)),
{
    match s {
        Some(t) => t,
        None => String::from_str(UNKNOWN),
    }
}

/// Assembles a heartbeat from what was found out: each missing value is
/// "unknown"; the location is that of the public address (of the text
/// "unknown" where the address is missing), and the title is the location.
pub fn heartbeat_data(
    rules: Option<&LocationRules>,
    public_ip: Option<String>,
    gateway_ip: Option<String>,
    connection_type: Option<ConnectionType>,
) -> (d: HeartbeatData)
    ensures
        d.public_ip@ == or_unknown(opt_text(public_ip)),
        d.gateway_ip@ == or_unknown(opt_text(gateway_ip)),
        d.connection_type@ == or_unknown(opt_label(connection_type)),
        d.location@ == location_of(
            match rules {
                Some(r) => Some(r@),
                None => None,
            },
            d.public_ip@,
        ),
        d.title@ == d.location@,
{
    let public_ip = text_or_unknown(public_ip);
    let gateway_ip = text_or_unknown(gateway_ip);
    let connection_type = match connection_type {
        Some(k) => String::from_str(k.as_str()),
        None => String::from_str(UNKNOWN),
    };
    let location = match rules {
        Some(r) => text_or_unknown(r.resolve(public_ip.as_str())),
        None => String::from_str(UNKNOWN),
    };
    let title = location.clone();
    HeartbeatData { public_ip, gateway_ip, connection_type, location, title }
}

impl HeartbeatData {
    /// The fields of the heartbeat as key and value, in the order they are
    /// sent.
    pub fn entries(&self) -> (v: Vec<(&'static str, String)>)
        ensures
            v@.len() == 5,
            v@[0].0@ == "public_ip"@ && v@[0].1@ == self.public_ip@,
            v@[1].0@ == "gateway_ip"@ && v@[1].1@ == self.gateway_ip@,
            v@[2].0@ == "connection_type"@ && v@[2].1@ == self.connection_type@,
            v@[3].0@ == "location"@ && v@[3].1@ == self.location@,
            v@[4].0@ == "title"@ && v@[4].1@ == self.title@,
    {
        let mut v: Vec<(&'static str, String)> = Vec::new();
        v.push(("public_ip", self.public_ip.clone()));
        v.push(("gateway_ip", self.gateway_ip.clone()));
        v.push(("connection_type", self.connection_type.clone()));
        v.push(("location", self.location.clone()));
        v.push(("title", self.title.clone()));
        v
    }
}

/// The bucket id is the bucket name, an underscore and the whole host
/// name, verbatim: it ends with the host name and is exactly one character
/// longer than name and host name together. Different host names give
/// different ids.
pub proof fn lemma_bucket_id_keeps_host_name(testing: bool, hostname: Seq<char>, other: Seq<char>)
    ensures
        ({
            let base = if testing {
                "aw-watcher-network-testing"@
            } else {
                "aw-watcher-network"@
            };
            let id = spec_bucket_id(testing, hostname);
            &&& id.len() == base.len() + 1 + hostname.len()
            &&& id.subrange(0, base.len() as int) == base
            &&& id[base.len() as int] == '_'
            &&& id.subrange(base.len() + 1int, id.len() as int) == hostname
        }),
        spec_bucket_id(testing, hostname) == spec_bucket_id(testing, other) ==> hostname == other,
{
    reveal_strlit("_");
    let base = if testing {
        "aw-watcher-network-testing"@
    } else {
        "aw-watcher-network"@
    };
    let id = spec_bucket_id(testing, hostname);
    assert(id == base + "_"@ + hostname);
    assert(id.subrange(0, base.len() as int) =~= base);
    assert(id.subrange(base.len() + 1int, id.len() as int) =~= hostname);
    let id2 = spec_bucket_id(testing, other);
    assert(id2 == base + "_"@ + other);
    if id == id2 {
        assert(id2.subrange(base.len() + 1int, id2.len() as int) =~= other);
    }
}

/// With rules, the location of a heartbeat is the name of the first
/// location that matches the public address, whatever its family (IPv4 or
/// IPv6), and "unknown" where none matches or the text is no address;
/// without rules it is "unknown".
pub proof fn lemma_location_follows_rules(
    rules: Seq<(Seq<char>, Seq<Seq<char>>)>,
    public_ip: Seq<char>,
)
    ensures
        spec_parse_ip_addr(public_ip) matches Some(ip) ==> location_of(Some(rules), public_ip)
            == match first_match(rules, ip) {
            Some(name) => name,
            None => "unknown"@,
        },
        spec_parse_ip_addr(public_ip) is None ==> location_of(Some(rules), public_ip)
            == "unknown"@,
        location_of(None, public_ip) == "unknown"@,
{
}

/// A heartbeat field carries a known value verbatim and "unknown" only
/// where the value is missing; a connection type is carried by its label.
pub proof fn lemma_known_values_kept(value: Option<String>, kind: Option<ConnectionType>)
    ensures
        value matches Some(v) ==> or_unknown(opt_text(value)) == v@,
        value is None ==> or_unknown(opt_text(value)) == "unknown"@,
        kind matches Some(k) ==> or_unknown(opt_label(kind)) == connection_label(k),
        kind is None ==> or_unknown(opt_label(kind)) == "unknown"@,
{
}

} // verus!
