//! What holds of every run, proved once.

use vstd::prelude::*;
use crate::outcome::{class_of, classes_of, matches_in, Classification, Outcome, WorkerFailure, TARGET};
use crate::runner::{echoed, expected_report, Phase, RunnerView};

verus! {

/// A report has one class for each outcome, in the order of the outcomes:
/// the class at a position is that of the outcome at the same position.
pub proof fn lemma_report_follows_outcomes(outcomes: Seq<Outcome>)
    ensures
        classes_of(outcomes).len() == outcomes.len(),
        forall|i: int|
            0 <= i < outcomes.len() ==> #[trigger] classes_of(outcomes)[i] == class_of(outcomes[i]),
{
}

/// A run that is done holds exactly one class for each of its workers.
pub proof fn lemma_done_run_is_complete(run: RunnerView)
    requires
        run.wf(),
        run.phase() == Phase::Done,
    ensures
        run.spawned == run.count,
        run.report.len() == run.count,
{
}

/// When every worker completes, the worker whose index is the target is the
/// only one that matches.
pub proof fn lemma_only_target_matches(count: nat)
    requires
        count <= u32::MAX,
    ensures
        expected_report(count).len() == count,
        forall|i: int|
            0 <= i < count ==> (#[trigger] expected_report(count)[i] == Classification::IsTarget
                <==> i == TARGET),
{
}

/// When every worker completes, the report holds one match if the run is
/// long enough to include the target's worker, and none otherwise.
pub proof fn lemma_match_count(count: nat)
    requires
        count <= u32::MAX,
    ensures
        matches_in(expected_report(count)) == (if count > TARGET {
            1nat
        } else {
            0nat
        }),
    decreases count,
{
    if count > 0 {
        lemma_match_count((count - 1) as nat);
        assert(expected_report(count).drop_last() =~= expected_report((count - 1) as nat));
    }
}

/// A report never holds more matches than entries.
pub proof fn lemma_matches_bounded(report: Seq<Classification>)
    ensures
        matches_in(report) <= report.len(),
    decreases report.len(),
{
    if report.len() > 0 {
        lemma_matches_bounded(report.drop_last());
    }
}

/// Two runs of the same size in which every worker completes give the same
/// report, and so the same classes with the same multiplicities.
pub proof fn lemma_runs_agree(count: nat, first: Seq<Outcome>, second: Seq<Outcome>)
    requires
        count <= u32::MAX,
        first == echoed(count),
        second == echoed(count),
    ensures
        classes_of(first) == classes_of(second),
        classes_of(first).to_multiset() == classes_of(second).to_multiset(),
{
}

/// A worker that fails counts as no match, and changes the class of no other
/// worker.
pub proof fn lemma_failure_is_local(outcomes: Seq<Outcome>, failed: int)
    requires
        0 <= failed < outcomes.len(),
    ensures
        classes_of(outcomes.update(failed, Err(WorkerFailure))) == classes_of(outcomes).update(
            failed,
            Classification::NotTarget,
        ),
{
    assert(classes_of(outcomes.update(failed, Err(WorkerFailure))) =~= classes_of(outcomes).update(
        failed,
        Classification::NotTarget,
    ));
}

} // verus!
