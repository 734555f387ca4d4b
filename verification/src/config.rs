//! The configuration the watchdog receives, fully populated, from its
//! surroundings. Loading and schema handling are the caller's concern; the
//! core only reads these fields.

use vstd::prelude::*;

verus! {

/// One symlink provisioned at startup, before the loop begins: the target
/// path and the link name.
#[derive(Debug)]
pub struct Symlink {
    pub path: String,
    pub link: String,
}

/// The watchdog's configuration: where to write metrics and how often, the
/// volume to watch and its free-space floor, the grace period between
/// signalling the worker and exiting, the worker binary to terminate, and
/// the symlinks to provision.
#[derive(Debug)]
pub struct Config {
    pub metrics_file_path: String,
    pub metrics_dump_interval_ms: u64,
    pub tmpfs_volume_path: String,
    pub tmpfs_min_space_left_mb: u64,
    pub grace_period_seconds: u64,
    pub runner_binary_path: String,
    pub symlinks: Vec<Symlink>,
}

} // verus!
