//! Process Handle Store: exclusive owner of the single optional process
//! handle, and the sole authority on liveness.
//!
//! The store never touches the operating system itself. The caller performs
//! the non-blocking liveness probe and the launch attempt while holding one
//! exclusive critical section around the whole check-then-act sequence, and
//! hands the observed outcomes in as plain values ([`ProbeReport`],
//! [`LaunchReport`]). The store decides what they mean and mutates the slot
//! accordingly.

use vstd::prelude::*;

verus! {

/// Handle to the operating-system process currently performing a scan. The
/// library knows the process only by its identifier; liveness is never
/// cached here, it is derived fresh from a probe on every query.
#[derive(Clone, Copy, Debug, PartialEq, Eq)]
pub struct ProcessHandle {
    /// Operating-system process identifier.
    pub pid: u32,
}

/// Exit outcome of a reaped process, recorded for diagnostics only.
#[derive(Clone, Copy, Debug, PartialEq, Eq)]
pub struct ExitOutcome {
    /// The exit code, or `None` when the process was terminated by a signal.
    pub code: Option<i32>,
}

/// What a non-blocking liveness probe of the owned process observed.
#[derive(Clone, Copy, Debug, PartialEq, Eq)]
pub enum ProbeReport {
    /// The process had not exited at the time of the probe.
    StillRunning,
    /// The process has exited with the given exit code (`None` when it was
    /// terminated by a signal).
    Exited(Option<i32>),
    /// The probe mechanism itself failed: an operating-system error distinct
    /// from the probed process having exited.
    ProbeError,
}

/// What an attempt to launch the external executable produced.
#[derive(Clone, Debug, PartialEq, Eq)]
pub enum LaunchReport {
    /// A new process is running; the payload is its identifier.
    Launched(u32),
    /// The operating system refused or failed to create the process
    /// (missing binary, permissions, resource limits); the payload
    /// describes the refusal.
    Failed(String),
}

/// The store's answer to a spawn request.
#[derive(Clone, Debug, PartialEq, Eq)]
pub enum SpawnResult {
    /// The slot was free and the launch succeeded: the new handle is stored.
    Started,
    /// The slot already held a live process: no launch was attempted.
    AlreadyRunning,
    /// The slot was free but the launch failed: the slot remains empty.
    LaunchFailed(String),
}

/// The liveness probe mechanism itself failed. Surfaced, never conflated
/// with "not running": treating it as "not running" would let a second
/// spawn race in on top of a process that may still be alive.
#[derive(Clone, Copy, Debug, PartialEq, Eq)]
pub struct ProbeFault;

/// A probe observation fits the slot when a report is handed in exactly if
/// a handle is owned: the probe is performed on the owned process, so there
/// is nothing to probe while the slot is empty.
pub open spec fn probe_consistent(slot: Option<ProcessHandle>, probe: Option<ProbeReport>) -> bool {
    probe is Some <==> slot is Some
}

/// Whether the probe observed that the owned process has exited.
pub open spec fn probe_observed_exit(probe: Option<ProbeReport>) -> bool {
    probe matches Some(ProbeReport::Exited(_))
}

/// The slot after a liveness check: cleared exactly when the probe observed
/// an exit, untouched otherwise.
pub open spec fn slot_after_probe(
    slot: Option<ProcessHandle>,
    probe: Option<ProbeReport>,
) -> Option<ProcessHandle> {
    if probe_observed_exit(probe) {
        None
    } else {
        slot
    }
}

/// The recorded exit outcome after a liveness check: the observed exit code
/// when the probe reaped the process, the previous record otherwise.
pub open spec fn exit_after_probe(
    slot: Option<ProcessHandle>,
    probe: Option<ProbeReport>,
    prev: Option<ExitOutcome>,
) -> Option<ExitOutcome> {
    match (slot, probe) {
        (Some(_), Some(ProbeReport::Exited(c))) => Some(ExitOutcome { code: c }),
        _ => prev,
    }
}

/// The liveness answer: `false` for an empty slot, the probe's verdict for
/// an occupied one, and a fault when the probe mechanism itself failed.
pub open spec fn liveness_answer(
    slot: Option<ProcessHandle>,
    probe: Option<ProbeReport>,
) -> Result<bool, ProbeFault> {
    match slot {
        None => Ok(false),
        Some(_) => match probe {
            Some(ProbeReport::StillRunning) => Ok(true),
            Some(ProbeReport::Exited(_)) => Ok(false),
            _ => Err(ProbeFault),
        },
    }
}

/// A launch observation fits the slot when a launch was attempted exactly
/// if the slot was empty: an occupied slot refuses the request before any
/// launch, and an empty one demands the attempt's outcome.
pub open spec fn launch_consistent(
    slot: Option<ProcessHandle>,
    launch: Option<LaunchReport>,
) -> bool {
    launch is Some <==> slot is None
}

/// The slot after a spawn request: filled with the new handle exactly when
/// it was empty and the launch succeeded.
pub open spec fn slot_after_spawn(
    slot: Option<ProcessHandle>,
    launch: Option<LaunchReport>,
) -> Option<ProcessHandle> {
    match (slot, launch) {
        (None, Some(LaunchReport::Launched(pid))) => Some(ProcessHandle { pid }),
        _ => slot,
    }
}

/// The store's answer to a spawn request, as a function of the slot and the
/// launch observation.
pub open spec fn spawn_answer(
    slot: Option<ProcessHandle>,
    launch: Option<LaunchReport>,
) -> SpawnResult {
    match slot {
        Some(_) => SpawnResult::AlreadyRunning,
        None => match launch {
            Some(LaunchReport::Launched(_)) => SpawnResult::Started,
            Some(LaunchReport::Failed(reason)) => SpawnResult::LaunchFailed(reason),
            None => SpawnResult::AlreadyRunning,
        },
    }
}

/// Holds ownership of at most one external-process handle and answers
/// liveness queries, reclaiming the slot when the process has exited.
#[derive(Debug)]
pub struct HandleStore {
    /// The single slot: at most one process handle exists system-wide.
    pub slot: Option<ProcessHandle>,
    /// The exit outcome observed by the most recent reap, for diagnostics.
    pub last_exit: Option<ExitOutcome>,
}

impl HandleStore {
    /// A store that owns no process: the initial, idle state.
    pub fn new() -> (s: HandleStore)
        ensures
            s.slot is None,
            s.last_exit is None,
    {
        HandleStore { slot: None, last_exit: None }
    }

    /// Whether the slot currently holds a handle. This is ownership, not
    /// liveness: the owned process may have exited since the last probe.
    pub fn owns_handle(&self) -> (b: bool)
        ensures
            b == (self.slot is Some),
    {
        self.slot.is_some()
    }

    /// The identifier of the owned process, if any.
    pub fn owned_pid(&self) -> (p: Option<u32>)
        ensures
            match self.slot {
                Some(h) => p == Some(h.pid),
                None => p is None,
            },
    {
        match &self.slot {
            Some(h) => Some(h.pid),
            None => None,
        }
    }

    /// The exit outcome recorded by the most recent reap, if any.
    pub fn last_exit_outcome(&self) -> (e: Option<ExitOutcome>)
        ensures
            e == self.last_exit,
    {
        self.last_exit
    }

    /// Answers "is a scan currently running" from a fresh probe observation,
    /// reaping the slot when the probe saw the process exit.
    ///
    /// The caller must hold exclusive access to the slot for the duration of
    /// the call, and `probe` must be the outcome of a non-blocking probe of
    /// the owned process performed under that same access (hence a report is
    /// handed in exactly when a handle is owned). An empty slot answers
    /// `false` outright; an observed exit records the outcome, clears the
    /// slot and answers `false`; a probe failure is surfaced as a fault and
    /// leaves the slot untouched.
    pub fn check_liveness(&mut self, probe: Option<ProbeReport>) -> (r: Result<bool, ProbeFault>)
        requires
            probe_consistent(old(self).slot, probe),
        ensures
            final(self).slot == slot_after_probe(old(self).slot, probe),
            final(self).last_exit == exit_after_probe(old(self).slot, probe, old(self).last_exit),
            r == liveness_answer(old(self).slot, probe),
    {
        if self.slot.is_some() {
            match probe {
                Some(ProbeReport::StillRunning) => Ok(true),
                Some(ProbeReport::Exited(code)) => {
                    self.last_exit = Some(ExitOutcome { code });
                    self.slot = None;
                    Ok(false)
                }
                Some(ProbeReport::ProbeError) => Err(ProbeFault),
                None => unreached(),
            }
        } else {
            Ok(false)
        }
    }

    /// Attempts to fill the slot with a newly launched process.
    ///
    /// The caller must hold the same exclusive access across the preceding
    /// liveness check and this call, so that two callers cannot both observe
    /// an empty slot and both launch; `launch` is the outcome of the launch
    /// attempt made under that access (hence an attempt is made exactly when
    /// the slot was empty). An occupied slot answers `AlreadyRunning`; a
    /// successful launch stores the new handle; a failed launch leaves the
    /// slot empty, so a later request starts from a clean state.
    pub fn try_spawn(&mut self, launch: Option<LaunchReport>) -> (r: SpawnResult)
        requires
            launch_consistent(old(self).slot, launch),
        ensures
            final(self).slot == slot_after_spawn(old(self).slot, launch),
            final(self).last_exit == old(self).last_exit,
            r == spawn_answer(old(self).slot, launch),
    {
        if self.slot.is_some() {
            SpawnResult::AlreadyRunning
        } else {
            match launch {
                Some(LaunchReport::Launched(pid)) => {
                    self.slot = Some(ProcessHandle { pid });
                    SpawnResult::Started
                }
                Some(LaunchReport::Failed(reason)) => SpawnResult::LaunchFailed(reason),
                None => unreached(),
            }
        }
    }
}

} // verus!
