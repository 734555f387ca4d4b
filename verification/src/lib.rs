//! A container resource watchdog library.
//!
//! The crate measures a container's memory working set from cgroup accounting
//! files, measures free space on a mounted volume, renders a metrics snapshot,
//! decides when the polling loop must stop, and terminates a tracked worker
//! process by its canonical executable path.

pub mod cgroups;
pub mod config;
pub mod fsinfo;
pub mod hostpath;
pub mod metrics;
pub mod pskill;
pub mod text;
pub mod watchdog;
