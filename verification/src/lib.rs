//! Network context for an ActivityWatch watcher: location rules that map a
//! public address to a named place, classification of the default network
//! interface, and the decisions around each heartbeat.

pub mod address;
pub mod cli;
pub mod config;
pub mod heartbeat;
pub mod location;
pub mod net;
pub mod text;
