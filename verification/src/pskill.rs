//! The process terminator.
//!
//! Matching is a pure, verified function from a process table and a target
//! path to the set of matching process identifiers; enumeration and signal
//! delivery are trusted calls around it. Termination is best effort and
//! never fatal to the caller: an unresolvable target or an unreadable
//! process table makes the call a no-op, and a failed delivery to one
//! process stops nothing.

use vstd::prelude::*;

use crate::hostpath;
use crate::text;

verus! {

/// The termination signals the terminator can send.
#[derive(Clone, Copy, PartialEq, Eq, Structural, Debug)]
pub enum SignalKind {
    Term,
    Kill,
}

/// One enumerated process: its identifier and, where it could be resolved,
/// the canonical path of its executable. Processes whose executable cannot
/// be resolved (exited, permission denied, kernel threads) carry `None`
/// and are skipped, not treated as an error for the batch.
#[derive(Debug)]
pub struct ProcessRecord {
    pub pid: i32,
    pub exe: Option<String>,
}

/// Whether a record's executable resolved to the canonical target path.
pub open spec fn matches_target(record: ProcessRecord, target: Seq<char>) -> bool {
    record.exe matches Some(exe) && exe@ == target
}

/// The identifiers of exactly the records whose executable equals the
/// target, in enumeration order.
pub open spec fn matching_pids_spec(records: Seq<ProcessRecord>, target: Seq<char>) -> Seq<i32>
    decreases records.len(),
{
    if records.len() == 0 {
        Seq::empty()
    } else {
        let rest = matching_pids_spec(records.drop_last(), target);
        if matches_target(records.last(), target) {
            rest.push(records.last().pid)
        } else {
            rest
        }
    }
}

/// The selection is exact: every record whose executable equals the target
/// contributes its identifier, and nothing else appears — all matches and
/// zero others.
pub proof fn lemma_matching_pids_exact(records: Seq<ProcessRecord>, target: Seq<char>)
    ensures
        forall|i: int|
            0 <= i < records.len() && matches_target(#[trigger] records[i], target)
                ==> matching_pids_spec(records, target).contains(records[i].pid),
        forall|x: i32|
            matching_pids_spec(records, target).contains(x) ==> exists|i: int|
                0 <= i < records.len() && matches_target(#[trigger] records[i], target)
                    && records[i].pid == x,
    decreases records.len(),
{
    if records.len() == 0 {
    } else {
        let prefix = records.drop_last();
        lemma_matching_pids_exact(prefix, target);
        let rest = matching_pids_spec(prefix, target);
        let full = matching_pids_spec(records, target);
        assert forall|i: int|
            0 <= i < records.len() && matches_target(#[trigger] records[i], target) implies full
            .contains(records[i].pid) by {
            if i < records.len() - 1 {
                assert(prefix[i] == records[i]);
                assert(rest.contains(records[i].pid));
                let j = choose|j: int| 0 <= j < rest.len() && rest[j] == records[i].pid;
                assert(full[j] == records[i].pid);
            } else {
                assert(full.last() == records[i].pid);
            }
        }
        assert forall|x: i32| full.contains(x) implies exists|i: int|
            0 <= i < records.len() && matches_target(#[trigger] records[i], target)
                && records[i].pid == x by {
            let j = choose|j: int| 0 <= j < full.len() && full[j] == x;
            if matches_target(records.last(), target) && j == full.len() - 1 {
                assert(matches_target(records[records.len() - 1], target));
                assert(records[records.len() - 1].pid == x);
            } else {
                assert(rest.contains(x));
                let i = choose|i: int|
                    0 <= i < prefix.len() && matches_target(#[trigger] prefix[i], target)
                        && prefix[i].pid == x;
                assert(matches_target(records[i], target));
            }
        }
    }
}

/// Collects the identifiers of the records whose executable equals the
/// target path, in enumeration order.
pub fn matching_pids(records: &Vec<ProcessRecord>, target: &str) -> (pids: Vec<i32>)
    ensures
        pids@ == matching_pids_spec(records@, target@),
{
    let mut pids: Vec<i32> = Vec::new();
    let mut i: usize = 0;
    while i < records.len()
        invariant
            0 <= i <= records@.len(),
            pids@ == matching_pids_spec(records@.take(i as int), target@),
        decreases records@.len() - i,
    {
        proof {
            assert(records@.take(i + 1).drop_last() =~= records@.take(i as int));
            assert(records@.take(i + 1).last() == records@[i as int]);
        }
        let record = &records[i];
        let is_match = match &record.exe {
            Some(exe) => text::str_eq(exe.as_str(), target),
            None => false,
        };
        if is_match {
            pids.push(record.pid);
        }
        i += 1;
    }
    proof {
        assert(records@.take(records@.len() as int) =~= records@);
    }
    pids
}

/// Relies on `procfs::process::all_processes` and, per process,
/// `Process::pid` and `Process::exe`: one record per process the
/// enumeration yields, carrying its identifier and the canonical path of
/// its executable, or `None` in the record where the executable cannot be
/// resolved; `None` overall where the process table cannot be read at all.
/// The table depends on the state of the host, so nothing more is
/// promised.
#[verifier::external_body]
fn list_processes() -> Option<Vec<ProcessRecord>> {
    let procs = match procfs::process::all_processes() {
        Ok(procs) => procs,
        Err(_) => return None,
    };
    let mut records: Vec<ProcessRecord> = Vec::new();
    for process in procs.flatten() {
        let exe = process.exe().ok().and_then(|p| p.to_str().map(String::from));
        records.push(ProcessRecord { pid: process.pid(), exe });
    }
    Some(records)
}

/// Relies on `nix::sys::signal::kill`: sends the signal to the process and
/// reports whether delivery was accepted; a failure (the process already
/// exited, permission denied) is reported, never raised.
#[verifier::external_body]
fn send_signal(pid: i32, signal: SignalKind) -> bool {
    let sig = match signal {
        SignalKind::Term => nix::sys::signal::Signal::SIGTERM,
        SignalKind::Kill => nix::sys::signal::Signal::SIGKILL,
    };
    nix::sys::signal::kill(nix::unistd::Pid::from_raw(pid), sig).is_ok()
}

/// Resolves the target binary path to its canonical form once, enumerates
/// the live processes, and sends `signal` to every process whose canonical
/// executable path equals the target — zero, one or several. Returns
/// normally whatever happens: an unresolvable target or an unreadable
/// process table leaves it a no-op.
pub fn killall(ps_binary_path: &str, signal: SignalKind) {
    let target = match hostpath::canonicalize_path(ps_binary_path) {
        Some(target) => target,
        None => return ,
    };
    let records = match list_processes() {
        Some(records) => records,
        None => return ,
    };
    let pids = matching_pids(&records, target.as_str());
    let mut i: usize = 0;
    while i < pids.len()
        decreases pids@.len() - i,
    {
        let _delivered = send_signal(pids[i], signal);
        i += 1;
    }
}

} // verus!
