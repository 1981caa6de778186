use vstd::prelude::*;

pub mod linux;
pub mod macos;
pub mod windows;

use linux::linux_kind;
use macos::macos_kind;
use windows::windows_kind;

verus! {

/// The kind of link the default interface provides.
#[derive(Clone, Copy, Debug, PartialEq, Eq, Structural)]
pub enum ConnectionType {
    Wifi,
    Lan,
}

/// The label of a connection type, as sent in heartbeats.
pub open spec fn connection_label(t: ConnectionType) -> Seq<char> {
    match t {
        ConnectionType::Wifi => "wifi"@,
        ConnectionType::Lan => "lan"@,
    }
}

impl ConnectionType {
    /// The label of this connection type: `"wifi"` or `"lan"`.
    pub fn as_str(self) -> (label: &'static str)
        ensures
            label@ == connection_label(self),
    {
        match self {
            ConnectionType::Wifi => "wifi",
            ConnectionType::Lan => "lan",
        }
    }
}

/// The operating system family whose interface naming applies.
#[derive(Clone, Copy, Debug, PartialEq, Eq, Structural)]
pub enum Platform {
    Windows,
    MacOs,
    /// Linux and every other system.
    Unix,
}

/// The connection type of an interface name on a platform.
pub open spec fn platform_kind(platform: Platform, name: Seq<char>) -> Option<ConnectionType> {
    match platform {
        Platform::Windows => windows_kind(name),
        Platform::MacOs => macos_kind(name),
        Platform::Unix => linux_kind(name),
    }
}

/// Classifies the name of the default interface by the naming of the
/// platform: wireless, wired, or unknown (`None`).
pub fn classify_connection_type(platform: Platform, name: &str) -> (r: Option<ConnectionType>)
    ensures
        r == platform_kind(platform, name@),
{
    match platform {
        Platform::Windows => windows::classify_connection_type_impl(name),
        Platform::MacOs => macos::classify_connection_type_impl(name),
        Platform::Unix => linux::classify_connection_type_impl(name),
    }
}

/// The two connection types have different labels.
pub proof fn lemma_labels_distinct()
    ensures
        connection_label(ConnectionType::Wifi) != connection_label(ConnectionType::Lan),
{
    reveal_strlit("wifi");
    reveal_strlit("lan");
    assert(connection_label(ConnectionType::Wifi).len() != connection_label(ConnectionType::Lan).len());
}

/// On Windows and on Unix systems the classification ignores ASCII case:
/// two names that agree once lower-cased get the same connection type.
pub proof fn lemma_classification_ignores_case(platform: Platform, a: Seq<char>, b: Seq<char>)
    requires
        platform != Platform::MacOs,
        crate::text::ascii_lowercase(a) == crate::text::ascii_lowercase(b),
    ensures
        platform_kind(platform, a) == platform_kind(platform, b),
{
}

/// How many services are asked for the public address.
pub const ENDPOINT_COUNT: usize = 2;

/// The field of a service's JSON reply that holds the public address.
pub const IP_FIELD: &'static str = "ip";

/// The service asked in attempt `attempt` (counted from 0), if any.
pub open spec fn endpoint_url(attempt: int) -> Option<Seq<char>> {
    if attempt == 0 {
        Some("https://api64.ipify.org?format=json"@)
    } else if attempt == 1 {
        Some("https://api.ipify.org?format=json"@)
    } else {
        None
    }
}

/// The URL of the service asked in attempt `attempt`: first the service
/// that answers over IPv6 where it can, then the IPv4-only one.
pub fn public_ip_endpoint(attempt: usize) -> (url: Option<&'static str>)
    ensures
        match url {
            Some(u) => endpoint_url(attempt as int) == Some(u@),
            None => endpoint_url(attempt as int) is None,
        },
{
    if attempt == 0 {
        Some("https://api64.ipify.org?format=json")
    } else if attempt == 1 {
        Some("https://api.ipify.org?format=json")
    } else {
        None
    }
}

/// What the public-address lookup asks for next.
pub enum LookupStep {
    /// Send a GET request to this URL and hand back the reply's `ip` field.
    Fetch(&'static str),
    /// The lookup is over, with the public address where one was obtained.
    Done(Option<String>),
}

/// The state of a public-address lookup: which service was asked last.
pub struct PublicIpLookup {
    attempt: usize,
}

impl PublicIpLookup {
    /// The attempt under way, counted from 0.
    pub closed spec fn attempt(self) -> int {
        self.attempt as int
    }

    /// Starts a lookup: the first service is asked.
    pub fn start() -> (r: (Self, LookupStep))
        ensures
            r.0.attempt() == 0,
            r.1 matches LookupStep::Fetch(u) && endpoint_url(0) == Some(u@),
    {
        let url = public_ip_endpoint(0);
        match url {
            Some(u) => (PublicIpLookup { attempt: 0 }, LookupStep::Fetch(u)),
            None => (PublicIpLookup { attempt: 0 }, LookupStep::Done(None)),
        }
    }

    /// Takes the outcome of the attempt under way: the `ip` field of the
    /// reply where it was a string, and `None` where the request failed,
    /// the reply was no JSON or had no such string. The first address
    /// obtained ends the lookup; otherwise the next service is asked, and
    /// after the last one the lookup ends without an address.
    pub fn on_reply(&mut self, ip: Option<String>) -> (step: LookupStep)
        ensures
            match ip {
                Some(addr) => step matches LookupStep::Done(Some(a)) && a@ == addr@
                    && final(self).attempt() == old(self).attempt(),
                None => match endpoint_url(old(self).attempt() + 1) {
                    Some(next) => step matches LookupStep::Fetch(u) && u@ == next
                        && final(self).attempt() == old(self).attempt() + 1,
                    None => step matches LookupStep::Done(None)
                        && final(self).attempt() == old(self).attempt(),
                },
            },
    {
        match ip {
            Some(addr) => LookupStep::Done(Some(addr)),
            None => {
                if self.attempt >= ENDPOINT_COUNT {
                    return LookupStep::Done(None);
                }
                let next = self.attempt + 1;
                match public_ip_endpoint(next) {
                    Some(u) => {
                        self.attempt = next;
                        LookupStep::Fetch(u)
                    },
                    None => LookupStep::Done(None),
                }
            },
        }
    }
}

/// What the library reads of the default network interface.
pub struct DefaultInterface {
    /// The interface's name.
    pub name: String,
    /// The address of its gateway, as text, where it has one.
    pub gateway_ip: Option<String>,
}

/// The gateway address and connection type of the default interface:
/// both unknown where there is no default interface.
pub fn gateway_and_type(platform: Platform, interface: Option<DefaultInterface>) -> (r: (
    Option<String>,
    Option<ConnectionType>,
))
    ensures
        match interface {
            Some(i) => r.0 == i.gateway_ip && r.1 == platform_kind(platform, i.name@),
            None => r.0 is None && r.1 is None,
        },
{
    match interface {
        Some(i) => {
            let kind = classify_connection_type(platform, i.name.as_str());
            (i.gateway_ip, kind)
        },
        None => (None, None),
    }
}

} // verus!
