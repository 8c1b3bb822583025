//! Guarantees over serialized request histories.
//!
//! Concurrent requests are serialized by the exclusive critical section
//! around the slot, so a concurrent execution is some interleaving of whole
//! requests. This module models such a history as a sequence of requests
//! together with what each one observed, and proves the system-wide
//! guarantees over every such history: at most one start request is
//! accepted while the spawned process stays alive, an observed exit frees
//! the slot for the next start, repeated status checks on a live process
//! never waver, and a failed launch leaves no trace.

use vstd::prelude::*;

use crate::controller::Outcome;
use crate::controller::ScanDecision;
use crate::controller::Status;
use crate::controller::outcome_of_spawn;
use crate::controller::scan_decision_of;
use crate::controller::status_answer;
use crate::store::LaunchReport;
use crate::store::ProbeFault;
use crate::store::ProbeReport;
use crate::store::ProcessHandle;
use crate::store::launch_consistent;
use crate::store::probe_consistent;
use crate::store::probe_observed_exit;
use crate::store::slot_after_probe;
use crate::store::slot_after_spawn;
use crate::store::spawn_answer;

verus! {

/// One whole start-scan request, with what its holder of the exclusive
/// section observed: the liveness probe of the owned process (when one was
/// owned) and the launch attempt (when the freshly checked slot was free).
pub struct ScanEvent {
    pub probe: Option<ProbeReport>,
    pub launch: Option<LaunchReport>,
}

/// The slot after one whole start-scan request.
pub open spec fn slot_after_scan(
    slot: Option<ProcessHandle>,
    ev: ScanEvent,
) -> Option<ProcessHandle> {
    let probed = slot_after_probe(slot, ev.probe);
    if scan_decision_of(slot, ev.probe) is AttemptLaunch {
        slot_after_spawn(probed, ev.launch)
    } else {
        probed
    }
}

/// The outcome of one whole start-scan request.
pub open spec fn scan_outcome(slot: Option<ProcessHandle>, ev: ScanEvent) -> Outcome {
    match scan_decision_of(slot, ev.probe) {
        ScanDecision::RespondConflict => Outcome::Conflict,
        ScanDecision::RespondFault => Outcome::InternalFault,
        ScanDecision::AttemptLaunch => outcome_of_spawn(
            spawn_answer(slot_after_probe(slot, ev.probe), ev.launch),
        ),
    }
}

/// A scan event fits the slot it meets: a probe report is handed in exactly
/// when a handle is owned, and a launch is attempted exactly when the
/// freshly checked slot is free.
pub open spec fn scan_event_consistent(slot: Option<ProcessHandle>, ev: ScanEvent) -> bool {
    &&& probe_consistent(slot, ev.probe)
    &&& if scan_decision_of(slot, ev.probe) is AttemptLaunch {
        launch_consistent(slot_after_probe(slot, ev.probe), ev.launch)
    } else {
        ev.launch is None
    }
}

/// Every event of the history fits the slot state it meets.
pub open spec fn scan_events_consistent(slot: Option<ProcessHandle>, evs: Seq<ScanEvent>) -> bool
    decreases evs.len(),
{
    evs.len() == 0 || {
        &&& scan_event_consistent(slot, evs[0])
        &&& scan_events_consistent(slot_after_scan(slot, evs[0]), evs.drop_first())
    }
}

/// The slot after a serialized history of start-scan requests.
pub open spec fn slot_after_scans(
    slot: Option<ProcessHandle>,
    evs: Seq<ScanEvent>,
) -> Option<ProcessHandle>
    decreases evs.len(),
{
    if evs.len() == 0 {
        slot
    } else {
        slot_after_scans(slot_after_scan(slot, evs[0]), evs.drop_first())
    }
}

/// The outcomes of a serialized history of start-scan requests, in order.
pub open spec fn scan_outcomes(slot: Option<ProcessHandle>, evs: Seq<ScanEvent>) -> Seq<Outcome>
    decreases evs.len(),
{
    if evs.len() == 0 {
        Seq::empty()
    } else {
        seq![scan_outcome(slot, evs[0])] + scan_outcomes(
            slot_after_scan(slot, evs[0]),
            evs.drop_first(),
        )
    }
}

/// How many requests of the history were accepted.
pub open spec fn accepted_count(slot: Option<ProcessHandle>, evs: Seq<ScanEvent>) -> nat
    decreases evs.len(),
{
    if evs.len() == 0 {
        0
    } else {
        (if scan_outcome(slot, evs[0]) is Accepted {
            1nat
        } else {
            0nat
        }) + accepted_count(slot_after_scan(slot, evs[0]), evs.drop_first())
    }
}

/// No probe of the history observed an exit: the spawned process (if any)
/// remains alive throughout.
pub open spec fn no_exit_observed(evs: Seq<ScanEvent>) -> bool {
    forall|i: int| 0 <= i < evs.len() ==> !probe_observed_exit(#[trigger] evs[i].probe)
}

/// No probe of the history faulted.
pub open spec fn no_probe_fault(evs: Seq<ScanEvent>) -> bool {
    forall|i: int|
        0 <= i < evs.len() ==> !(#[trigger] evs[i].probe matches Some(ProbeReport::ProbeError))
}

/// Every launch attempted in the history succeeded.
pub open spec fn all_launches_succeed(evs: Seq<ScanEvent>) -> bool {
    forall|i: int|
        0 <= i < evs.len() ==> !(#[trigger] evs[i].launch matches Some(LaunchReport::Failed(_)))
}

/// A history of start-scan requests produces one outcome per request.
pub proof fn lemma_scan_outcomes_len(slot: Option<ProcessHandle>, evs: Seq<ScanEvent>)
    ensures
        scan_outcomes(slot, evs).len() == evs.len(),
    decreases evs.len(),
{
    if evs.len() > 0 {
        lemma_scan_outcomes_len(slot_after_scan(slot, evs[0]), evs.drop_first());
    }
}

/// A history of status checks produces one answer per check.
pub proof fn lemma_status_answers_len(slot: Option<ProcessHandle>, probes: Seq<Option<ProbeReport>>)
    ensures
        status_answers(slot, probes).len() == probes.len(),
    decreases probes.len(),
{
    if probes.len() > 0 {
        lemma_status_answers_len(slot_after_probe(slot, probes[0]), probes.drop_first());
    }
}

/// An accepted request fills the slot, and while the process stays alive an
/// occupied slot stays occupied, so no later request of the history can be
/// accepted again.
proof fn lemma_scan_step_slot(slot: Option<ProcessHandle>, ev: ScanEvent)
    requires
        scan_event_consistent(slot, ev),
        !probe_observed_exit(ev.probe),
    ensures
        scan_outcome(slot, ev) is Accepted ==> slot_after_scan(slot, ev) is Some,
        slot is Some ==> slot_after_scan(slot, ev) == slot,
        slot is Some ==> !(scan_outcome(slot, ev) is Accepted),
{
}

/// At most one of any serialized history of start-scan requests is accepted
/// while the spawned process remains alive; from an occupied slot, none is.
pub proof fn lemma_at_most_one_accepted(slot: Option<ProcessHandle>, evs: Seq<ScanEvent>)
    requires
        scan_events_consistent(slot, evs),
        no_exit_observed(evs),
    ensures
        accepted_count(slot, evs) <= 1,
        slot is Some ==> accepted_count(slot, evs) == 0,
    decreases evs.len(),
{
    if evs.len() > 0 {
        let ev = evs[0];
        let next = slot_after_scan(slot, ev);
        lemma_scan_step_slot(slot, ev);
        assert(no_exit_observed(evs.drop_first())) by {
            assert forall|i: int|
                0 <= i < evs.drop_first().len() implies !probe_observed_exit(
                #[trigger] evs.drop_first()[i].probe,
            ) by {
                assert(evs.drop_first()[i] == evs[i + 1]);
            }
        }
        lemma_at_most_one_accepted(next, evs.drop_first());
    }
}

/// While the spawned process remains alive and no probe faults, every start
/// request but the accepted one observes a conflict: the history's outcomes
/// hold at most one acceptance and otherwise only conflicts, provided each
/// attempted launch itself succeeds.
pub proof fn lemma_others_observe_conflict(slot: Option<ProcessHandle>, evs: Seq<ScanEvent>)
    requires
        scan_events_consistent(slot, evs),
        no_exit_observed(evs),
        no_probe_fault(evs),
        all_launches_succeed(evs),
    ensures
        accepted_count(slot, evs) <= 1,
        forall|i: int|
            0 <= i < evs.len() ==> (#[trigger] scan_outcomes(slot, evs)[i] is Accepted
                || scan_outcomes(slot, evs)[i] is Conflict),
    decreases evs.len(),
{
    lemma_at_most_one_accepted(slot, evs);
    lemma_scan_outcomes_len(slot, evs);
    if evs.len() > 0 {
        let ev = evs[0];
        let next = slot_after_scan(slot, ev);
        let rest = evs.drop_first();
        lemma_scan_outcomes_len(next, rest);
        assert(no_exit_observed(rest) && no_probe_fault(rest) && all_launches_succeed(rest)) by {
            assert forall|i: int| 0 <= i < rest.len() implies (!probe_observed_exit(
                #[trigger] rest[i].probe,
            ) && !(rest[i].probe matches Some(ProbeReport::ProbeError)) && !(
            rest[i].launch matches Some(LaunchReport::Failed(_)))) by {
                assert(rest[i] == evs[i + 1]);
            }
        }
        lemma_others_observe_conflict(next, rest);
        assert(scan_outcome(slot, ev) is Accepted || scan_outcome(slot, ev) is Conflict);
        assert forall|i: int| 0 <= i < evs.len() implies (#[trigger] scan_outcomes(
            slot,
            evs,
        )[i] is Accepted || scan_outcomes(slot, evs)[i] is Conflict) by {
            if i > 0 {
                assert(scan_outcomes(slot, evs)[i] == scan_outcomes(next, rest)[i - 1]);
            }
        }
    }
}

/// After the owned process has exited, the next status check reports
/// `running: false` and empties the slot, and a start request issued after
/// it, whose launch succeeds, is accepted: liveness reflects reality.
pub proof fn lemma_exit_frees_slot(slot: Option<ProcessHandle>, code: Option<i32>, pid: u32)
    requires
        slot is Some,
    ensures
        status_answer(slot, Some(ProbeReport::Exited(code))) == Ok::<Status, ProbeFault>(
            (Status { running: false }),
        ),
        slot_after_probe(slot, Some(ProbeReport::Exited(code))) is None,
        scan_outcome(
            slot_after_probe(slot, Some(ProbeReport::Exited(code))),
            (ScanEvent { probe: None, launch: Some(LaunchReport::Launched(pid)) }),
        ) == Outcome::Accepted,
{
}

/// The slot after a serialized history of status checks, each with its
/// probe observation.
pub open spec fn slot_after_statuses(
    slot: Option<ProcessHandle>,
    probes: Seq<Option<ProbeReport>>,
) -> Option<ProcessHandle>
    decreases probes.len(),
{
    if probes.len() == 0 {
        slot
    } else {
        slot_after_statuses(slot_after_probe(slot, probes[0]), probes.drop_first())
    }
}

/// The answers of a serialized history of status checks, in order.
pub open spec fn status_answers(
    slot: Option<ProcessHandle>,
    probes: Seq<Option<ProbeReport>>,
) -> Seq<Result<Status, ProbeFault>>
    decreases probes.len(),
{
    if probes.len() == 0 {
        Seq::empty()
    } else {
        seq![status_answer(slot, probes[0])] + status_answers(
            slot_after_probe(slot, probes[0]),
            probes.drop_first(),
        )
    }
}

/// While the external process is alive — every probe of the history finds
/// it still running — repeated status checks answer `running: true` every
/// time, with no flakiness from re-probing, and none of them moves the
/// slot.
pub proof fn lemma_no_false_negative(slot: Option<ProcessHandle>, probes: Seq<Option<ProbeReport>>)
    requires
        slot is Some,
        forall|i: int| 0 <= i < probes.len() ==> #[trigger] probes[i] == Some(
            ProbeReport::StillRunning,
        ),
    ensures
        forall|i: int|
            0 <= i < probes.len() ==> #[trigger] status_answers(slot, probes)[i] == Ok::<
                Status,
                ProbeFault,
            >((Status { running: true })),
        slot_after_statuses(slot, probes) == slot,
    decreases probes.len(),
{
    lemma_status_answers_len(slot, probes);
    if probes.len() > 0 {
        let rest = probes.drop_first();
        assert(probes[0] == Some(ProbeReport::StillRunning));
        assert forall|i: int| 0 <= i < rest.len() implies #[trigger] rest[i] == Some(
            ProbeReport::StillRunning,
        ) by {
            assert(rest[i] == probes[i + 1]);
        }
        lemma_no_false_negative(slot, rest);
        lemma_status_answers_len(slot, rest);
        assert forall|i: int| 0 <= i < probes.len() implies #[trigger] status_answers(
            slot,
            probes,
        )[i] == Ok::<Status, ProbeFault>((Status { running: true })) by {
            if i > 0 {
                assert(status_answers(slot, probes)[i] == status_answers(slot, rest)[i - 1]);
            }
        }
    }
}

/// A failed launch is surfaced as a fault and leaves the slot empty, so the
/// next start request is evaluated as if no scan had ever been attempted:
/// with a succeeding launch it is accepted.
pub proof fn lemma_failed_launch_leaves_slot_clean(reason: String, pid: u32)
    ensures
        scan_outcome(
            None,
            (ScanEvent { probe: None, launch: Some(LaunchReport::Failed(reason)) }),
        ) == Outcome::InternalFault,
        slot_after_scan(
            None,
            (ScanEvent { probe: None, launch: Some(LaunchReport::Failed(reason)) }),
        ) is None,
        scan_outcome(
            slot_after_scan(
                None,
                (ScanEvent { probe: None, launch: Some(LaunchReport::Failed(reason)) }),
            ),
            (ScanEvent { probe: None, launch: Some(LaunchReport::Launched(pid)) }),
        ) == Outcome::Accepted,
{
}

} // verus!
