//! Location rules: named places, each with IP addresses and networks, and
//! the resolution of a public address to the first place that matches it.
use vstd::prelude::*;

use crate::address::{
    net_contains, parse_ip_addr, parse_ip_net, spec_net_contains, spec_parse_ip_addr,
    spec_parse_ip_net, IpAddrValue, NetValue,
};
use crate::config::{ConfigFile, EntryValue, LocationsValue, MappingEntry};

verus! {

/// The texts of a sequence of strings.
pub open spec fn texts(v: Seq<String>) -> Seq<Seq<char>> {
    v.map_values(|s: String| s@)
}

/// The string items of a sequence, in order; other items are skipped.
pub open spec fn string_items(items: Seq<Option<String>>) -> Seq<Seq<char>>
    decreases items.len(),
{
    if items.len() == 0 {
        seq![]
    } else {
        let rest = string_items(items.drop_last());
        match items.last() {
            Some(s) => rest.push(s@),
            None => rest,
        }
    }
}

/// The entries of one location: the string items of a sequence, and none
/// for any other value.
pub open spec fn location_entries(value: EntryValue) -> Seq<Seq<char>> {
    match value {
        EntryValue::Sequence(items) => string_items(items@),
        EntryValue::Other => seq![],
    }
}

/// The locations of a mapping, in order: one for each pair whose key is a
/// string, with that key as name; pairs with other keys are skipped.
pub open spec fn locations_of(pairs: Seq<MappingEntry>) -> Seq<(Seq<char>, Seq<Seq<char>>)>
    decreases pairs.len(),
{
    if pairs.len() == 0 {
        seq![]
    } else {
        let rest = locations_of(pairs.drop_last());
        match pairs.last().key {
            Some(name) => rest.push((name@, location_entries(pairs.last().value))),
            None => rest,
        }
    }
}

/// The locations that a configuration file defines: those of its
/// `locations` mapping, and none where `locations` is absent or not a
/// mapping.
pub open spec fn rules_from_config(config: ConfigFile) -> Seq<(Seq<char>, Seq<Seq<char>>)> {
    match config.locations {
        Some(LocationsValue::Mapping(pairs)) => locations_of(pairs@),
        _ => seq![],
    }
}

/// A sequence whose items are all strings keeps every item, in order.
pub proof fn lemma_string_items_all_kept(items: Seq<Option<String>>)
    requires
        forall|j: int| 0 <= j < items.len() ==> #[trigger] items[j] is Some,
    ensures
        string_items(items).len() == items.len(),
        forall|j: int| 0 <= j < items.len() ==> #[trigger] string_items(items)[j] == items[j]->0@,
    decreases items.len(),
{
    if items.len() > 0 {
        let rest = items.drop_last();
        assert forall|j: int| 0 <= j < rest.len() implies #[trigger] rest[j] is Some by {
            assert(rest[j] == items[j]);
        }
        lemma_string_items_all_kept(rest);
        assert(items.last() is Some);
        assert forall|j: int| 0 <= j < items.len() implies #[trigger] string_items(items)[j]
            == items[j]->0@ by {
            if j < items.len() - 1 {
                assert(rest[j] == items[j]);
            }
        }
    }
}

/// The items of a pair's value where it is a sequence.
pub open spec fn pair_items(pair: MappingEntry) -> Seq<Option<String>> {
    match pair.value {
        EntryValue::Sequence(items) => items@,
        EntryValue::Other => seq![],
    }
}

/// A pair whose key is a string and whose value is a sequence of strings.
pub open spec fn all_string_pair(pair: MappingEntry) -> bool {
    &&& pair.key is Some
    &&& pair.value is Sequence
    &&& forall|j: int| 0 <= j < pair_items(pair).len() ==> #[trigger] pair_items(pair)[j] is Some
}

/// Where every key of the `locations` mapping is a string and every value
/// a sequence of strings, there is one location per pair, in the order of
/// the file, named by the pair's key and with the sequence's items, in
/// order, as its entries.
pub proof fn lemma_all_string_pairs_kept(pairs: Seq<MappingEntry>)
    requires
        forall|i: int| 0 <= i < pairs.len() ==> all_string_pair(#[trigger] pairs[i]),
    ensures
        locations_of(pairs).len() == pairs.len(),
        forall|i: int|
            0 <= i < pairs.len() ==> {
                &&& (#[trigger] locations_of(pairs)[i]).0 == pairs[i].key->0@
                &&& locations_of(pairs)[i].1.len() == pair_items(pairs[i]).len()
                &&& forall|j: int|
                    0 <= j < pair_items(pairs[i]).len() ==> #[trigger] locations_of(pairs)[i].1[j]
                        == pair_items(pairs[i])[j]->0@
            },
    decreases pairs.len(),
{
    if pairs.len() > 0 {
        let rest = pairs.drop_last();
        assert forall|i: int| 0 <= i < rest.len() implies all_string_pair(#[trigger] rest[i]) by {
            assert(rest[i] == pairs[i]);
        }
        lemma_all_string_pairs_kept(rest);
        let last = pairs.last();
        assert(last == pairs[pairs.len() - 1]);
        assert(all_string_pair(last));
        lemma_string_items_all_kept(pair_items(last));
        assert forall|i: int| 0 <= i < pairs.len() implies {
            &&& (#[trigger] locations_of(pairs)[i]).0 == pairs[i].key->0@
            &&& locations_of(pairs)[i].1.len() == pair_items(pairs[i]).len()
            &&& forall|j: int|
                0 <= j < pair_items(pairs[i]).len() ==> #[trigger] locations_of(pairs)[i].1[j]
                    == pair_items(pairs[i])[j]->0@
        } by {
            if i < pairs.len() - 1 {
                assert(rest[i] == pairs[i]);
                assert(locations_of(pairs)[i] == locations_of(rest)[i]);
            }
        }
    }
}

/// A pair whose key is not a string adds no location, and one whose key
/// is a string adds exactly one, at the end.
pub proof fn lemma_pair_contributes(pairs: Seq<MappingEntry>, pair: MappingEntry)
    ensures
        pair.key is None ==> locations_of(pairs.push(pair)) == locations_of(pairs),
        pair.key matches Some(name) ==> locations_of(pairs.push(pair)) == locations_of(pairs).push(
            (name@, location_entries(pair.value)),
        ),
{
    assert(pairs.push(pair).drop_last() == pairs);
}

/// Whether an entry, parsed both as a network and as an address, matches
/// `ip`: an entry that parses as a network matches the addresses that the
/// network contains; any other entry matches the address it parses to.
pub open spec fn parsed_entry_matches(
    net: Option<NetValue>,
    addr: Option<IpAddrValue>,
    ip: IpAddrValue,
) -> bool {
    match net {
        Some(n) => spec_net_contains(n, ip),
        None => addr == Some(ip),
    }
}

/// Whether the entry text `entry` matches `ip`.
pub open spec fn entry_matches(entry: Seq<char>, ip: IpAddrValue) -> bool {
    parsed_entry_matches(spec_parse_ip_net(entry), spec_parse_ip_addr(entry), ip)
}

/// Whether some entry of a location matches `ip`.
pub open spec fn location_matches(entries: Seq<Seq<char>>, ip: IpAddrValue) -> bool {
    exists|j: int| 0 <= j < entries.len() && #[trigger] entry_matches(entries[j], ip)
}

/// The name of the first location, from index `start` on, that matches `ip`.
pub open spec fn first_match_from(
    rules: Seq<(Seq<char>, Seq<Seq<char>>)>,
    ip: IpAddrValue,
    start: int,
) -> Option<Seq<char>>
    decreases rules.len() - start,
{
    if start < 0 || start >= rules.len() {
        None
    } else if location_matches(rules[start].1, ip) {
        Some(rules[start].0)
    } else {
        first_match_from(rules, ip, start + 1)
    }
}

/// The name of the first location that matches `ip`.
pub open spec fn first_match(rules: Seq<(Seq<char>, Seq<Seq<char>>)>, ip: IpAddrValue) -> Option<
    Seq<char>,
> {
    first_match_from(rules, ip, 0)
}

/// The location of a public address given as text: none where the text is
/// not an IP address, else the first location that matches the address.
pub open spec fn resolve_text(rules: Seq<(Seq<char>, Seq<Seq<char>>)>, public_ip: Seq<char>) -> Option<
    Seq<char>,
> {
    match spec_parse_ip_addr(public_ip) {
        Some(ip) => first_match(rules, ip),
        None => None,
    }
}

/// Resolving a text is resolving the address it parses to; a text that is
/// no address resolves to nothing, whatever its characters.
pub proof fn lemma_resolve_text_is_parse_then_match(
    rules: Seq<(Seq<char>, Seq<Seq<char>>)>,
    public_ip: Seq<char>,
)
    ensures
        spec_parse_ip_addr(public_ip) matches Some(ip) ==> resolve_text(rules, public_ip)
            == first_match(rules, ip),
        spec_parse_ip_addr(public_ip) is None ==> resolve_text(rules, public_ip) is None,
{
}

/// The text of an optional string.
pub open spec fn opt_text(s: Option<String>) -> Option<Seq<char>> {
    match s {
        Some(t) => Some(t@),
        None => None,
    }
}

proof fn lemma_first_match_from(
    rules: Seq<(Seq<char>, Seq<Seq<char>>)>,
    ip: IpAddrValue,
    start: int,
)
    requires
        0 <= start <= rules.len(),
    ensures
        match first_match_from(rules, ip, start) {
            Some(name) => exists|i: int|
                start <= i < rules.len() && rules[i].0 == name && #[trigger] location_matches(
                    rules[i].1,
                    ip,
                ) && forall|k: int|
                    start <= k < i ==> !#[trigger] location_matches(rules[k].1, ip),
            None => forall|k: int|
                start <= k < rules.len() ==> !#[trigger] location_matches(rules[k].1, ip),
        },
    decreases rules.len() - start,
{
    if start < rules.len() {
        lemma_first_match_from(rules, ip, start + 1);
        if !location_matches(rules[start].1, ip) {
            match first_match_from(rules, ip, start + 1) {
                Some(name) => {
                    let i = choose|i: int|
                        start + 1 <= i < rules.len() && rules[i].0 == name
                            && #[trigger] location_matches(rules[i].1, ip) && forall|k: int|
                            start + 1 <= k < i ==> !#[trigger] location_matches(rules[k].1, ip);
                    assert forall|k: int| start <= k < i implies !#[trigger] location_matches(
                        rules[k].1,
                        ip,
                    ) by {
                        if k > start {
                        }
                    }
                },
                None => {
                    assert forall|k: int| start <= k < rules.len() implies !#[trigger] location_matches(
                        rules[k].1,
                        ip,
                    ) by {
                        if k > start {
                        }
                    }
                },
            }
        }
    }
}

/// Resolution picks the first location that matches, in the order of the
/// configuration file: where location `i` matches the address and no
/// location before it does, the result is the name of location `i`; and
/// the result is `None` exactly where no location matches.
pub proof fn lemma_first_match_wins(rules: Seq<(Seq<char>, Seq<Seq<char>>)>, ip: IpAddrValue)
    ensures
        forall|i: int|
            0 <= i < rules.len() && #[trigger] location_matches(rules[i].1, ip) && (forall|k: int|
                0 <= k < i ==> !#[trigger] location_matches(rules[k].1, ip)) ==> first_match(
                rules,
                ip,
            ) == Some(rules[i].0),
        first_match(rules, ip) is None <==> forall|i: int|
            0 <= i < rules.len() ==> !#[trigger] location_matches(rules[i].1, ip),
{
    lemma_first_match_from(rules, ip, 0);
    assert forall|i: int|
        0 <= i < rules.len() && #[trigger] location_matches(rules[i].1, ip) && (forall|k: int|
            0 <= k < i ==> !#[trigger] location_matches(rules[k].1, ip)) implies first_match(
        rules,
        ip,
    ) == Some(rules[i].0) by {
        match first_match(rules, ip) {
            Some(name) => {
                let j = choose|j: int|
                    0 <= j < rules.len() && rules[j].0 == name && #[trigger] location_matches(
                        rules[j].1,
                        ip,
                    ) && forall|k: int| 0 <= k < j ==> !#[trigger] location_matches(rules[k].1, ip);
                if j < i {
                    assert(!location_matches(rules[j].1, ip));
                } else if i < j {
                    assert(!location_matches(rules[i].1, ip));
                }
            },
            None => {},
        }
    }
}

/// A location matches an address exactly when one of its entries, at any
/// position, does: an entry that parses as a network containing the
/// address, or an entry that is no network and parses to the address
/// itself. The order of the entries does not matter.
pub proof fn lemma_location_matches_any_entry(entries: Seq<Seq<char>>, ip: IpAddrValue)
    ensures
        location_matches(entries, ip) <==> exists|j: int|
            0 <= j < entries.len() && match #[trigger] spec_parse_ip_net(entries[j]) {
                Some(n) => spec_net_contains(n, ip),
                None => spec_parse_ip_addr(entries[j]) == Some(ip),
            },
{
    if location_matches(entries, ip) {
        let j = choose|j: int| 0 <= j < entries.len() && #[trigger] entry_matches(entries[j], ip);
        assert(match spec_parse_ip_net(entries[j]) {
            Some(n) => spec_net_contains(n, ip),
            None => spec_parse_ip_addr(entries[j]) == Some(ip),
        });
    }
    if exists|j: int|
        0 <= j < entries.len() && match #[trigger] spec_parse_ip_net(entries[j]) {
            Some(n) => spec_net_contains(n, ip),
            None => spec_parse_ip_addr(entries[j]) == Some(ip),
        } {
        let j = choose|j: int|
            0 <= j < entries.len() && match #[trigger] spec_parse_ip_net(entries[j]) {
                Some(n) => spec_net_contains(n, ip),
                None => spec_parse_ip_addr(entries[j]) == Some(ip),
            };
        assert(entry_matches(entries[j], ip));
    }
}

/// Where entry `j` of location `i` matches the address (a network that
/// contains it, or the address itself), and no location before `i` has a
/// matching entry, resolution gives the name of location `i`, whatever the
/// entries before or after `j` are.
pub proof fn lemma_matching_entry_resolves(
    rules: Seq<(Seq<char>, Seq<Seq<char>>)>,
    ip: IpAddrValue,
    i: int,
    j: int,
)
    requires
        0 <= i < rules.len(),
        0 <= j < rules[i].1.len(),
        match spec_parse_ip_net(rules[i].1[j]) {
            Some(n) => spec_net_contains(n, ip),
            None => spec_parse_ip_addr(rules[i].1[j]) == Some(ip),
        },
        forall|k: int, e: int|
            0 <= k < i && 0 <= e < rules[k].1.len() ==> !match #[trigger] spec_parse_ip_net(
                rules[k].1[e],
            ) {
                Some(n) => spec_net_contains(n, ip),
                None => spec_parse_ip_addr(rules[k].1[e]) == Some(ip),
            },
    ensures
        first_match(rules, ip) == Some(rules[i].0),
{
    lemma_location_matches_any_entry(rules[i].1, ip);
    assert forall|k: int| 0 <= k < i implies !#[trigger] location_matches(rules[k].1, ip) by {
        lemma_location_matches_any_entry(rules[k].1, ip);
    }
    lemma_first_match_wins(rules, ip);
}

/// Named locations, each with its entries, in the order of the
/// configuration file.
pub struct LocationRules {
    ordered: Vec<(String, Vec<String>)>,
}

impl View for LocationRules {
    type V = Seq<(Seq<char>, Seq<Seq<char>>)>;

    closed spec fn view(&self) -> Self::V {
        self.ordered@.map_values(|p: (String, Vec<String>)| (p.0@, texts(p.1@)))
    }
}

/// Whether an entry matches `ip`, given what parsing the entry as a network
/// and as an address gave.
pub fn match_parsed_entry(net: Option<NetValue>, addr: Option<IpAddrValue>, ip: IpAddrValue) -> (r:
    bool)
    ensures
        r == parsed_entry_matches(net, addr, ip),
{
    match net {
        Some(n) => net_contains(n, ip),
        None => match addr {
            Some(a) => a == ip,
            None => false,
        },
    }
}

/// Whether the entry text matches `ip`; the entry is parsed as an address
/// only where it is no network.
fn match_entry(entry: &str, ip: IpAddrValue) -> (r: bool)
    ensures
        r == entry_matches(entry@, ip),
{
    let net = parse_ip_net(entry);
    if net.is_some() {
        match_parsed_entry(net, None, ip)
    } else {
        let addr = parse_ip_addr(entry);
        match_parsed_entry(None, addr, ip)
    }
}

/// Whether some entry of `entries` matches `ip`.
fn match_location(entries: &Vec<String>, ip: IpAddrValue) -> (r: bool)
    ensures
        r == location_matches(texts(entries@), ip),
{
    let mut j: usize = 0;
    while j < entries.len()
        invariant
            j <= entries@.len(),
            forall|k: int| 0 <= k < j ==> !entry_matches(#[trigger] texts(entries@)[k], ip),
        decreases entries@.len() - j,
    {
        if match_entry(entries[j].as_str(), ip) {
            assert(entry_matches(texts(entries@)[j as int], ip));
            return true;
        }
        j = j + 1;
    }
    false
}

impl LocationRules {
    /// The rules that a configuration file defines (see `rules_from_config`).
    pub fn from_config(config: ConfigFile) -> (rules: Self)
        ensures
            rules@ == rules_from_config(config),
    {
        let mut ordered: Vec<(String, Vec<String>)> = Vec::new();
        match config.locations {
            Some(LocationsValue::Mapping(pairs)) => {
                let mut i: usize = 0;
                while i < pairs.len()
                    invariant
                        i <= pairs@.len(),
                        ordered@.map_values(|p: (String, Vec<String>)| (p.0@, texts(p.1@)))
                            == locations_of(pairs@.subrange(0, i as int)),
                    decreases pairs@.len() - i,
                {
                    let ghost before = ordered@;
                    let pair = &pairs[i];
                    proof {
                        assert(pairs@.subrange(0, i + 1).drop_last() == pairs@.subrange(0, i as int));
                    }
                    match &pair.key {
                        Some(name) => {
                            let entries = collect_entries(&pair.value);
                            let n = name.clone();
                            let ghost pushed = (n, entries);
                            ordered.push((n, entries));
                            proof {
                                assert(ordered@ == before.push(pushed));
                                assert(ordered@.map_values(
                                    |p: (String, Vec<String>)| (p.0@, texts(p.1@)),
                                ) =~= before.map_values(
                                    |p: (String, Vec<String>)| (p.0@, texts(p.1@)),
                                ).push((name@, texts(pushed.1@))));
                            }
                        },
                        None => {},
                    }
                    i = i + 1;
                }
                proof {
                    assert(pairs@.subrange(0, pairs@.len() as int) == pairs@);
                }
            },
            _ => {},
        }
        LocationRules { ordered }
    }
}

impl LocationRules {
    /// The first location, in the order of the configuration file, with an
    /// entry that matches the address `ip`.
    pub fn resolve_addr(&self, ip: IpAddrValue) -> (r: Option<String>)
        ensures
            opt_text(r) == first_match(self@, ip),
    {
        let mut i: usize = 0;
        while i < self.ordered.len()
            invariant
                i <= self@.len(),
                self@.len() == self.ordered@.len(),
                first_match(self@, ip) == first_match_from(self@, ip, i as int),
            decreases self@.len() - i,
        {
            let (name, entries) = &self.ordered[i];
            proof {
                assert(self@[i as int] == (name@, texts(entries@)));
            }
            if match_location(entries, ip) {
                return Some(name.clone());
            }
            i = i + 1;
        }
        None
    }

    /// The location of the public address given as text: `None` where the
    /// text is no IP address, else the first location that matches it.
    pub fn resolve(&self, public_ip: &str) -> (r: Option<String>)
        ensures
            opt_text(r) == resolve_text(self@, public_ip@),
            spec_parse_ip_addr(public_ip@) is None ==> r is None,
    {
        match parse_ip_addr(public_ip) {
            Some(ip) => self.resolve_addr(ip),
            None => None,
        }
    }
}

/// The string items of a location's value.
fn collect_entries(value: &EntryValue) -> (entries: Vec<String>)
    ensures
        texts(entries@) == location_entries(*value),
{
    let mut entries: Vec<String> = Vec::new();
    match value {
        EntryValue::Sequence(items) => {
            let mut i: usize = 0;
            while i < items.len()
                invariant
                    i <= items@.len(),
                    texts(entries@) == string_items(items@.subrange(0, i as int)),
                decreases items@.len() - i,
            {
                let ghost before = entries@;
                proof {
                    assert(items@.subrange(0, i + 1).drop_last() == items@.subrange(0, i as int));
                }
                match &items[i] {
                    Some(s) => {
                        entries.push(s.clone());
                        assert(texts(entries@) =~= texts(before).push(s@));
                    },
                    None => {},
                }
                i = i + 1;
            }
            proof {
                assert(items@.subrange(0, items@.len() as int) == items@);
            }
        },
        EntryValue::Other => {},
    }
    entries
}

} // verus!
