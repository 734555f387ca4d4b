//! The control-plane state machine of the watchdog.
//!
//! The machine owns the exit reason and the enforcement policy. It makes every
//! decision of the polling loop from plain values observed during a tick; the
//! caller performs the surrounding work (querying, publishing, sleeping,
//! signalling, exiting) and reports the outcomes back.

use vstd::prelude::*;

verus! {

/// Terminal classification of why the loop stopped. Exactly one reason is
/// produced per process lifetime; it determines the process exit status.
#[derive(Clone, Copy, PartialEq, Eq, Structural, Debug)]
pub enum ExitReason {
    VolumeExhausted,
    TerminationRequested,
    InternalError,
}

/// The fixed mapping from an exit reason to the process exit status.
pub open spec fn exit_code_spec(reason: ExitReason) -> int {
    match reason {
        ExitReason::VolumeExhausted => 138,
        ExitReason::TerminationRequested => 130,
        ExitReason::InternalError => -1,
    }
}

/// Maps an exit reason to the process exit status the caller must end with.
pub fn exit_code(reason: ExitReason) -> (code: i32)
    ensures
        code == exit_code_spec(reason),
{
    match reason {
        ExitReason::VolumeExhausted => 138,
        ExitReason::TerminationRequested => 130,
        ExitReason::InternalError => -1,
    }
}

/// The lifecycle states of the loop.
#[derive(Clone, Copy, PartialEq, Eq, Structural, Debug)]
pub enum Phase {
    Initializing,
    Polling,
    ShuttingDown,
    Terminated,
}

/// What one tick observed. `None` in a query field records that the query
/// failed; `publish_ok` records whether the metrics snapshot was written, and
/// is consulted only when both queries succeeded.
pub struct TickReport {
    pub volume_free_mb: Option<u64>,
    pub memory_mb: Option<usize>,
    pub publish_ok: bool,
    pub termination_requested: bool,
}

/// What the caller must do after a tick was evaluated.
#[derive(Clone, Copy, PartialEq, Eq, Structural, Debug)]
pub enum TickDirective {
    Sleep,
    BeginShutdown,
}

/// The decision one tick produces, in the fixed order of evaluation: a failed
/// volume query, then a failed memory query, then a failed publish, each end
/// the loop with an internal error; then the free-space floor; then an
/// observed termination request; otherwise the loop continues.
pub open spec fn tick_decision(report: TickReport, min_free_mb: u64) -> Option<ExitReason> {
    if report.volume_free_mb is None {
        Some(ExitReason::InternalError)
    } else if report.memory_mb is None {
        Some(ExitReason::InternalError)
    } else if !report.publish_ok {
        Some(ExitReason::InternalError)
    } else if report.volume_free_mb->0 < min_free_mb {
        Some(ExitReason::VolumeExhausted)
    } else if report.termination_requested {
        Some(ExitReason::TerminationRequested)
    } else {
        None
    }
}

/// The watchdog's control state: the lifecycle phase, the exit reason once one
/// exists, and the configured free-space floor in megabytes.
pub struct Watchdog {
    pub phase: Phase,
    pub exit_reason: Option<ExitReason>,
    pub min_free_mb: u64,
}

impl Watchdog {
    /// An exit reason exists exactly from the moment the machine leaves the
    /// polling states; once set it never changes and no further tick is
    /// accepted.
    pub open spec fn wf(self) -> bool {
        match self.phase {
            Phase::Initializing => self.exit_reason is None,
            Phase::Polling => self.exit_reason is None,
            Phase::ShuttingDown => self.exit_reason is Some,
            Phase::Terminated => self.exit_reason is Some,
        }
    }

    /// A fresh machine, before the accountants are constructed.
    pub fn new(min_free_mb: u64) -> (wd: Self)
        ensures
            wd.phase == Phase::Initializing,
            wd.exit_reason is None,
            wd.min_free_mb == min_free_mb,
            wd.wf(),
    {
        Watchdog { phase: Phase::Initializing, exit_reason: None, min_free_mb }
    }

    /// Records the outcome of startup: on success the machine starts polling;
    /// on failure it is terminated at once with an internal error, with no
    /// shutdown sequence, since nothing was started.
    pub fn initialization_complete(&mut self, ok: bool)
        requires
            old(self).phase == Phase::Initializing,
            old(self).wf(),
        ensures
            final(self).min_free_mb == old(self).min_free_mb,
            ok ==> final(self).phase == Phase::Polling && final(self).exit_reason is None,
            !ok ==> final(self).phase == Phase::Terminated && final(self).exit_reason
                == Some(ExitReason::InternalError),
            final(self).wf(),
    {
        if ok {
            self.phase = Phase::Polling;
        } else {
            self.phase = Phase::Terminated;
            self.exit_reason = Some(ExitReason::InternalError);
        }
    }

    /// Evaluates one tick. While no exit condition holds the state is
    /// unchanged and the caller must sleep; on the first exit condition the
    /// machine moves to shutting down, records the reason given by
    /// `tick_decision`, and the caller must begin the shutdown sequence.
    pub fn on_tick(&mut self, report: &TickReport) -> (directive: TickDirective)
        requires
            old(self).phase == Phase::Polling,
            old(self).wf(),
        ensures
            final(self).min_free_mb == old(self).min_free_mb,
            final(self).wf(),
            match tick_decision(*report, old(self).min_free_mb) {
                None => *final(self) == *old(self) && directive == TickDirective::Sleep,
                Some(reason) => final(self).phase == Phase::ShuttingDown
                    && final(self).exit_reason == Some(reason)
                    && directive == TickDirective::BeginShutdown,
            },
    {
        let failed = report.volume_free_mb.is_none() || report.memory_mb.is_none()
            || !report.publish_ok;
        if failed {
            self.phase = Phase::ShuttingDown;
            self.exit_reason = Some(ExitReason::InternalError);
            return TickDirective::BeginShutdown;
        }
        let free = *report.volume_free_mb.as_ref().unwrap();
        if free < self.min_free_mb {
            self.phase = Phase::ShuttingDown;
            self.exit_reason = Some(ExitReason::VolumeExhausted);
            return TickDirective::BeginShutdown;
        }
        if report.termination_requested {
            self.phase = Phase::ShuttingDown;
            self.exit_reason = Some(ExitReason::TerminationRequested);
            return TickDirective::BeginShutdown;
        }
        TickDirective::Sleep
    }

    /// Records that the shutdown sequence (signalling the worker, then the
    /// grace period) has run; the reason set when shutdown began is kept.
    pub fn shutdown_complete(&mut self)
        requires
            old(self).phase == Phase::ShuttingDown,
            old(self).wf(),
        ensures
            final(self).phase == Phase::Terminated,
            final(self).exit_reason == old(self).exit_reason,
            final(self).min_free_mb == old(self).min_free_mb,
            final(self).wf(),
    {
        self.phase = Phase::Terminated;
    }

    /// The exit status the process must end with, defined once the machine is
    /// terminated.
    pub fn exit_status(&self) -> (code: i32)
        requires
            self.phase == Phase::Terminated,
            self.wf(),
        ensures
            code == exit_code_spec(self.exit_reason->0),
    {
        match self.exit_reason {
            Some(reason) => exit_code(reason),
            None => -1,
        }
    }
}

} // verus!
