//! The volume accountant.
//!
//! Queries the filesystem statistics of a configured mount path and converts
//! block counts to whole megabytes. Nothing is cached: capacity changes tick
//! to tick, so every query re-issues the statistics call. The `used` figure
//! is always derived as `total - free`, never queried directly, so the
//! triple balances exactly.

use vstd::prelude::*;

use crate::hostpath;

verus! {

/// How the volume accountant fails: the configured path does not exist at
/// construction, or the statistics query failed or returned counters that
/// no consistent megabyte triple can represent.
#[derive(Clone, Copy, PartialEq, Eq, Structural, Debug)]
pub enum FSError {
    PathNotFound,
    StatError,
}

/// The volume accountant: the configured mount path.
#[derive(Debug)]
pub struct FSInfo {
    pub volume_path: String,
}

/// Capacity counters of a volume, in whole megabytes.
#[derive(Clone, Copy, PartialEq, Eq, Structural, Debug)]
pub struct FSUsageMB {
    pub used: u64,
    pub free: u64,
    pub total: u64,
}

/// Megabytes covered by `count` blocks of `block_size` bytes each, rounded
/// down.
pub open spec fn blocks_to_mb(count: u64, block_size: u64) -> int {
    (count * block_size) / 0x100000
}

/// The triple the usage query derives from the raw counters: total space
/// and available space in megabytes, used space as their difference; no
/// triple exists where the total overflows the counter width or the
/// available space exceeds the total.
pub open spec fn usage_from_counters_spec(blocks: u64, block_size: u64, available: u64) -> Option<
    FSUsageMB,
> {
    let total = blocks_to_mb(blocks, block_size);
    let free = blocks_to_mb(available, block_size);
    if total <= u64::MAX && free <= total {
        Some(FSUsageMB { used: (total - free) as u64, free: free as u64, total: total as u64 })
    } else {
        None
    }
}

/// Converts raw filesystem counters to the megabyte triple. On success the
/// triple balances exactly: `used + free == total`.
pub fn usage_from_counters(blocks: u64, block_size: u64, available: u64) -> (r: Option<FSUsageMB>)
    ensures
        r == usage_from_counters_spec(blocks, block_size, available),
        r matches Some(u) ==> u.used + u.free == u.total,
{
    proof {
        assert((blocks as int) * (block_size as int) <= (u64::MAX as int) * (u64::MAX as int)
            && (available as int) * (block_size as int) <= (u64::MAX as int) * (
        u64::MAX as int)) by (nonlinear_arith)
            requires
                blocks <= u64::MAX,
                block_size <= u64::MAX,
                available <= u64::MAX,
        ;
    }
    let total128: u128 = ((blocks as u128) * (block_size as u128)) / 0x100000;
    let free128: u128 = ((available as u128) * (block_size as u128)) / 0x100000;
    if total128 > u64::MAX as u128 {
        return None;
    }
    if free128 > total128 {
        return None;
    }
    let total = total128 as u64;
    let free = free128 as u64;
    Some(FSUsageMB { used: total - free, free, total })
}

/// Relies on `nix::sys::statvfs::statvfs`: the statistics of the filesystem
/// holding the path — the count of blocks, the block size in bytes, and the
/// count of blocks available to unprivileged users — or `None` where the
/// query fails. The counters depend on the state of the host, so nothing
/// more is promised.
#[verifier::external_body]
fn statvfs_counters(path: &str) -> Option<(u64, u64, u64)> {
    match nix::sys::statvfs::statvfs(path) {
        Ok(st) => Some(
            (st.blocks() as u64, st.block_size() as u64, st.blocks_available() as u64),
        ),
        Err(_) => None,
    }
}

impl FSInfo {
    /// Validates the mount path once, fail fast: the path must exist and
    /// one statistics query must succeed before the accountant is built.
    pub fn new(volume_path: &str) -> (r: Result<FSInfo, FSError>)
        ensures
            match r {
                Ok(info) => info.volume_path@ == volume_path@,
                Err(e) => e == FSError::PathNotFound || e == FSError::StatError,
            },
    {
        if !hostpath::path_exists(volume_path) {
            return Err(FSError::PathNotFound);
        }
        match statvfs_counters(volume_path) {
            Some(_) => Ok(FSInfo { volume_path: String::from_str(volume_path) }),
            None => Err(FSError::StatError),
        }
    }

    /// Queries the statistics afresh and converts the counters through
    /// `usage_from_counters`; whatever the query returned, a triple that
    /// comes back balances exactly: `used + free == total`.
    pub fn space_usage_mb(&self) -> (r: Result<FSUsageMB, FSError>)
        ensures
            match r {
                Ok(u) => u.used + u.free == u.total,
                Err(e) => e == FSError::StatError,
            },
    {
        match statvfs_counters(self.volume_path.as_str()) {
            None => Err(FSError::StatError),
            Some((blocks, block_size, available)) => match usage_from_counters(
                blocks,
                block_size,
                available,
            ) {
                Some(usage) => Ok(usage),
                None => Err(FSError::StatError),
            },
        }
    }
}

} // verus!
