//! What the location rules read of a YAML configuration file.
//!
//! A configuration file holds an optional `locations` value. Where it is a
//! mapping, each key that is a string names a location, and where the value
//! under that key is a sequence, each item that is a string is one entry
//! (an IP address or a network in `address/prefix_len` form).
use vstd::prelude::*;

verus! {

/// A configuration file, as far as location rules read it.
#[derive(Debug)]
pub struct ConfigFile {
    /// The value under the `locations` key, if the key is present.
    pub locations: Option<LocationsValue>,
}

/// The value under `locations`.
#[derive(Debug)]
pub enum LocationsValue {
    /// A mapping, with its pairs in the order of the file.
    Mapping(Vec<MappingEntry>),
    /// Any other YAML value.
    Other,
}

/// One pair of the `locations` mapping.
#[derive(Debug)]
pub struct MappingEntry {
    /// The key where it is a string, `None` for any other key.
    pub key: Option<String>,
    /// The value under the key.
    pub value: EntryValue,
}

/// The value under one location's key.
#[derive(Debug)]
pub enum EntryValue {
    /// A sequence; each item is `Some` text where it is a string and
    /// `None` where it is any other YAML value.
    Sequence(Vec<Option<String>>),
    /// Any other YAML value.
    Other,
}

} // verus!
