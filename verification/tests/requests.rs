use scan_control::controller::Outcome;
use scan_control::controller::ScanDecision;
use scan_control::controller::Status;
use scan_control::controller::handle_status_request;
use scan_control::controller::scan_request_finish;
use scan_control::controller::scan_request_step;
use scan_control::store::ExitOutcome;
use scan_control::store::HandleStore;
use scan_control::store::LaunchReport;
use scan_control::store::ProbeFault;
use scan_control::store::ProbeReport;
use scan_control::store::SpawnResult;

/// Runs one whole start-scan request against the store, standing in for a
/// caller that holds the exclusive section for the request's duration:
/// `alive` is what a probe of an owned process would observe, `launch` is
/// what a launch attempt would produce.
fn start_request(store: &mut HandleStore, alive: ProbeReport, launch: LaunchReport) -> Outcome {
    let probe = if store.owns_handle() { Some(alive) } else { None };
    match scan_request_step(store, probe) {
        ScanDecision::RespondConflict => Outcome::Conflict,
        ScanDecision::RespondFault => Outcome::InternalFault,
        ScanDecision::AttemptLaunch => scan_request_finish(store, launch),
    }
}

/// Runs one status request against the store, in the same way.
fn status_request(store: &mut HandleStore, alive: ProbeReport) -> Result<Status, ProbeFault> {
    let probe = if store.owns_handle() { Some(alive) } else { None };
    handle_status_request(store, probe)
}

#[test]
fn status_with_no_prior_activity() {
    let mut store = HandleStore::new();
    let answer = handle_status_request(&mut store, None);
    assert_eq!(answer, Ok(Status::new(false)));
    assert!(!store.owns_handle());
}

#[test]
fn start_then_immediate_second_start() {
    let mut store = HandleStore::new();
    let first = start_request(
        &mut store,
        ProbeReport::StillRunning,
        LaunchReport::Launched(41),
    );
    assert_eq!(first, Outcome::Accepted);
    // The process has not exited yet: the second request must be refused.
    let second = start_request(
        &mut store,
        ProbeReport::StillRunning,
        LaunchReport::Launched(42),
    );
    assert_eq!(second, Outcome::Conflict);
    assert_eq!(store.owned_pid(), Some(41));
}

#[test]
fn running_until_delay_elapses() {
    // A process configured to exit after a short fixed delay: probes first
    // observe it running, then observe the exit.
    let mut store = HandleStore::new();
    let started = start_request(
        &mut store,
        ProbeReport::StillRunning,
        LaunchReport::Launched(7),
    );
    assert_eq!(started, Outcome::Accepted);
    let early = status_request(&mut store, ProbeReport::StillRunning);
    assert_eq!(early, Ok(Status::new(true)));
    let late = status_request(&mut store, ProbeReport::Exited(Some(0)));
    assert_eq!(late, Ok(Status::new(false)));
    // The observed exit reaped the slot: a new start request succeeds.
    assert!(!store.owns_handle());
    assert_eq!(store.last_exit_outcome(), Some(ExitOutcome { code: Some(0) }));
    let again = start_request(
        &mut store,
        ProbeReport::StillRunning,
        LaunchReport::Launched(8),
    );
    assert_eq!(again, Outcome::Accepted);
}

#[test]
fn launch_failure_then_retry() {
    let mut store = HandleStore::new();
    let failed = start_request(
        &mut store,
        ProbeReport::StillRunning,
        LaunchReport::Failed(String::from("executable path does not exist")),
    );
    assert_eq!(failed, Outcome::InternalFault);
    // The slot was not left occupied: the following request is evaluated as
    // if no scan had ever been attempted.
    assert!(!store.owns_handle());
    let retried = start_request(
        &mut store,
        ProbeReport::StillRunning,
        LaunchReport::Launched(9),
    );
    assert_eq!(retried, Outcome::Accepted);
}

#[test]
fn simultaneous_start_requests() {
    // Two start requests with no intervening delay: the exclusive section
    // serializes them, and the second finds the slot taken by the first.
    let mut store = HandleStore::new();
    let mut outcomes = vec![];
    outcomes.push(start_request(
        &mut store,
        ProbeReport::StillRunning,
        LaunchReport::Launched(50),
    ));
    outcomes.push(start_request(
        &mut store,
        ProbeReport::StillRunning,
        LaunchReport::Launched(51),
    ));
    let accepted = outcomes.iter().filter(|o| **o == Outcome::Accepted).count();
    let conflicts = outcomes.iter().filter(|o| **o == Outcome::Conflict).count();
    assert_eq!(accepted, 1);
    assert_eq!(conflicts, 1);
}

#[test]
fn repeated_status_checks_while_running() {
    // No false negative while the process is alive: re-probing never
    // flakes.
    let mut store = HandleStore::new();
    start_request(
        &mut store,
        ProbeReport::StillRunning,
        LaunchReport::Launched(11),
    );
    for _ in 0..5 {
        let answer = status_request(&mut store, ProbeReport::StillRunning);
        assert_eq!(answer, Ok(Status::new(true)));
    }
    assert_eq!(store.owned_pid(), Some(11));
}

#[test]
fn probe_fault_is_surfaced() {
    let mut store = HandleStore::new();
    start_request(
        &mut store,
        ProbeReport::StillRunning,
        LaunchReport::Launched(12),
    );
    // A failing probe mechanism is a fault, never "not running": the slot
    // keeps its handle and no second spawn can race in.
    let answer = status_request(&mut store, ProbeReport::ProbeError);
    assert_eq!(answer, Err(ProbeFault));
    assert!(store.owns_handle());
    let start = start_request(
        &mut store,
        ProbeReport::ProbeError,
        LaunchReport::Launched(13),
    );
    assert_eq!(start, Outcome::InternalFault);
    assert_eq!(store.owned_pid(), Some(12));
}

#[test]
fn signal_termination_is_reaped() {
    let mut store = HandleStore::new();
    start_request(
        &mut store,
        ProbeReport::StillRunning,
        LaunchReport::Launched(14),
    );
    // A process killed by a signal has no exit code; the reap records that.
    let answer = status_request(&mut store, ProbeReport::Exited(None));
    assert_eq!(answer, Ok(Status::new(false)));
    assert!(!store.owns_handle());
    assert_eq!(store.last_exit_outcome(), Some(ExitOutcome { code: None }));
}

#[test]
fn store_refuses_second_spawn() {
    let mut store = HandleStore::new();
    let first = store.try_spawn(Some(LaunchReport::Launched(20)));
    assert_eq!(first, SpawnResult::Started);
    let second = store.try_spawn(None);
    assert_eq!(second, SpawnResult::AlreadyRunning);
    assert_eq!(store.owned_pid(), Some(20));
}

#[test]
fn store_surfaces_launch_failure() {
    let mut store = HandleStore::new();
    let reason = String::from("permission denied");
    let result = store.try_spawn(Some(LaunchReport::Failed(reason.clone())));
    assert_eq!(result, SpawnResult::LaunchFailed(reason));
    assert!(!store.owns_handle());
}

#[test]
fn fresh_store_owns_nothing() {
    let store = HandleStore::new();
    assert!(!store.owns_handle());
    assert_eq!(store.owned_pid(), None);
    assert_eq!(store.last_exit_outcome(), None);
}

#[test]
fn status_new_carries_flag() {
    assert!(Status::new(true).running);
    assert!(!Status::new(false).running);
}

#[test]
fn test_app() {
    // The request sequence of the surrounding service, against the core:
    // status, start, status, second start, status after the process exits.
    let mut store = HandleStore::new();
    assert!(!status_request(&mut store, ProbeReport::StillRunning)
        .unwrap()
        .running);
    assert_eq!(
        start_request(
            &mut store,
            ProbeReport::StillRunning,
            LaunchReport::Launched(30),
        ),
        Outcome::Accepted
    );
    assert!(status_request(&mut store, ProbeReport::StillRunning)
        .unwrap()
        .running);
    assert_eq!(
        start_request(
            &mut store,
            ProbeReport::StillRunning,
            LaunchReport::Launched(31),
        ),
        Outcome::Conflict
    );
    assert!(!status_request(&mut store, ProbeReport::Exited(Some(0)))
        .unwrap()
        .running);
}
