//! The watcher's command-line options.
use vstd::prelude::*;

verus! {

/// The ActivityWatch server port used when none is given.
pub const DEFAULT_PORT: u16 = 5600;

/// The heartbeat interval, in seconds, used when none is given.
pub const DEFAULT_INTERVAL_SECS: u64 = 60;

/// The watcher's options.
#[derive(Debug)]
pub struct Cli {
    /// Sends events to a testing bucket and does not persist state.
    pub testing: bool,
    /// The ActivityWatch server port (default: 5600).
    pub port: u16,
    /// Heartbeat interval in seconds (default: 60s).
    pub interval: u64,
    /// Optional path to a YAML config with location mappings.
    pub config: Option<String>,
}

} // verus!
