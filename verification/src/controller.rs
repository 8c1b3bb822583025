//! Scan Controller: exposes the two request handlers over the Process
//! Handle Store and maps store outcomes to result codes. It has no state of
//! its own.
//!
//! A start-scan request is the pair [`scan_request_step`] /
//! [`scan_request_finish`], executed under one exclusive critical section:
//! the first performs the liveness check and decides whether a launch may
//! be attempted, the second records the attempt's outcome. Releasing the
//! section between the two would let two concurrent requests both observe
//! an idle slot and both launch.

use vstd::prelude::*;

use crate::store::HandleStore;
use crate::store::LaunchReport;
use crate::store::ProbeFault;
use crate::store::ProbeReport;
use crate::store::ProcessHandle;
use crate::store::SpawnResult;
use crate::store::exit_after_probe;
use crate::store::liveness_answer;
use crate::store::probe_consistent;
use crate::store::slot_after_probe;
use crate::store::slot_after_spawn;
use crate::store::spawn_answer;

verus! {

/// Outcome of a start-scan request, distinguishable by the caller.
#[derive(Clone, Copy, Debug, PartialEq, Eq, Structural)]
pub enum Outcome {
    /// The scan was started: a new external process is now running.
    Accepted,
    /// A scan is already active. Expected and recoverable: the caller may
    /// query status and retry later. Not a fault.
    Conflict,
    /// The launch failed, or the liveness probe itself failed: a
    /// server-side fault. The caller may retry, since a failed launch
    /// leaves the slot idle.
    InternalFault,
}

/// Body of a status response: whether a scan is currently running.
#[derive(Clone, Copy, Debug, PartialEq, Eq, Structural)]
pub struct Status {
    pub running: bool,
}

impl Status {
    pub fn new(running: bool) -> (s: Status)
        ensures
            s.running == running,
    {
        Status { running }
    }
}

/// What a start-scan request must do next, decided from the liveness check
/// made under the request's exclusive section.
#[derive(Clone, Copy, Debug, PartialEq, Eq, Structural)]
pub enum ScanDecision {
    /// A scan is already active: answer [`Outcome::Conflict`], no launch.
    RespondConflict,
    /// The probe itself failed: answer [`Outcome::InternalFault`], no
    /// launch — the process may still be alive.
    RespondFault,
    /// The slot is free: attempt the launch, still under the same exclusive
    /// section, and record it with [`scan_request_finish`].
    AttemptLaunch,
}

/// The decision a start-scan request takes after its liveness check.
pub open spec fn scan_decision_of(
    slot: Option<ProcessHandle>,
    probe: Option<ProbeReport>,
) -> ScanDecision {
    match liveness_answer(slot, probe) {
        Ok(true) => ScanDecision::RespondConflict,
        Ok(false) => ScanDecision::AttemptLaunch,
        Err(_) => ScanDecision::RespondFault,
    }
}

/// How store spawn answers map to request outcomes.
pub open spec fn outcome_of_spawn(r: SpawnResult) -> Outcome {
    match r {
        SpawnResult::Started => Outcome::Accepted,
        SpawnResult::AlreadyRunning => Outcome::Conflict,
        SpawnResult::LaunchFailed(_) => Outcome::InternalFault,
    }
}

/// The status answer: the liveness answer wrapped as a response body, with
/// a probe fault surfaced unchanged.
pub open spec fn status_answer(
    slot: Option<ProcessHandle>,
    probe: Option<ProbeReport>,
) -> Result<Status, ProbeFault> {
    match liveness_answer(slot, probe) {
        Ok(b) => Ok(Status { running: b }),
        Err(e) => Err(e),
    }
}

/// First half of a start-scan request: the liveness check, under the
/// request's exclusive section.
///
/// An active scan is refused with a conflict before any launch is
/// attempted; a probe fault is surfaced without a launch; otherwise the
/// slot is free (an observed exit has just been reaped) and the caller must
/// attempt the launch before releasing the section, then record it with
/// [`scan_request_finish`].
pub fn scan_request_step(store: &mut HandleStore, probe: Option<ProbeReport>) -> (d: ScanDecision)
    requires
        probe_consistent(old(store).slot, probe),
    ensures
        d == scan_decision_of(old(store).slot, probe),
        final(store).slot == slot_after_probe(old(store).slot, probe),
        final(store).last_exit == exit_after_probe(
            old(store).slot,
            probe,
            old(store).last_exit,
        ),
        d is AttemptLaunch ==> final(store).slot is None,
        d is RespondConflict || d is RespondFault ==> final(store).slot == old(store).slot,
{
    match store.check_liveness(probe) {
        Ok(true) => ScanDecision::RespondConflict,
        Ok(false) => ScanDecision::AttemptLaunch,
        Err(_) => ScanDecision::RespondFault,
    }
}

/// Second half of a start-scan request: records the launch attempt made
/// under the same exclusive section as [`scan_request_step`], and maps the
/// store's answer to the request outcome.
///
/// A successful launch stores the handle and is accepted; a failed launch
/// leaves the slot idle and is surfaced as a fault, so the next request is
/// evaluated as if no scan had ever been attempted.
pub fn scan_request_finish(store: &mut HandleStore, launch: LaunchReport) -> (o: Outcome)
    requires
        old(store).slot is None,
    ensures
        final(store).slot == slot_after_spawn(old(store).slot, Some(launch)),
        final(store).last_exit == old(store).last_exit,
        o == outcome_of_spawn(spawn_answer(old(store).slot, Some(launch))),
        o is Accepted <==> launch is Launched,
        o is Accepted <==> final(store).slot is Some,
{
    match store.try_spawn(Some(launch)) {
        SpawnResult::Started => Outcome::Accepted,
        SpawnResult::AlreadyRunning => Outcome::Conflict,
        SpawnResult::LaunchFailed(_) => Outcome::InternalFault,
    }
}

/// A status request: answers whether a scan is currently running, always
/// derived fresh from the given probe observation, never cached. Reaping an
/// observed exit is its only side effect; a probe fault is surfaced, never
/// conflated with "not running".
pub fn handle_status_request(store: &mut HandleStore, probe: Option<ProbeReport>) -> (r: Result<
    Status,
    ProbeFault,
>)
    requires
        probe_consistent(old(store).slot, probe),
    ensures
        final(store).slot == slot_after_probe(old(store).slot, probe),
        final(store).last_exit == exit_after_probe(
            old(store).slot,
            probe,
            old(store).last_exit,
        ),
        r == status_answer(old(store).slot, probe),
{
    match store.check_liveness(probe) {
        Ok(b) => Ok(Status::new(b)),
        Err(e) => Err(e),
    }
}

} // verus!
