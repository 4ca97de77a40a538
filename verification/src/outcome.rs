//! Worker outcomes and the two classes they fall into.

use vstd::prelude::*;

verus! {

/// The value that sets one worker apart from the others.
pub const TARGET: u32 = 3;

/// A worker that ended abnormally and so produced no value.
#[derive(Clone, Copy, Debug, PartialEq, Eq, Structural)]
pub struct WorkerFailure;

/// What waiting for one worker yields: its value, or the fact that it failed.
pub type Outcome = Result<u32, WorkerFailure>;

/// The class of one outcome.
#[derive(Clone, Copy, Debug, PartialEq, Eq, Structural)]
pub enum Classification {
    /// The worker completed and its value is [`TARGET`].
    IsTarget,
    /// The worker completed with another value, or did not complete.
    NotTarget,
}

/// The class of an outcome: only a completed worker whose value is the target
/// matches; a failure is folded into the other class.
pub open spec fn class_of(outcome: Outcome) -> Classification {
    match outcome {
        Ok(value) => if value == TARGET {
            Classification::IsTarget
        } else {
            Classification::NotTarget
        },
        Err(_) => Classification::NotTarget,
    }
}

/// The classes of a sequence of outcomes, position by position.
pub open spec fn classes_of(outcomes: Seq<Outcome>) -> Seq<Classification> {
    Seq::new(outcomes.len(), |i: int| class_of(outcomes[i]))
}

/// How many entries of a report are [`Classification::IsTarget`].
pub open spec fn matches_in(report: Seq<Classification>) -> nat
    decreases report.len(),
{
    if report.len() == 0 {
        0
    } else {
        let rest = matches_in(report.drop_last());
        if report.last() == Classification::IsTarget {
            rest + 1
        } else {
            rest
        }
    }
}

/// The value a worker produces: its own index, whatever the others do.
pub fn worker_result(index: u32) -> (value: u32)
    ensures
        value == index,
{
    index
}

/// Classifies one outcome.
pub fn classify(outcome: &Outcome) -> (class: Classification)
    ensures
        class == class_of(*outcome),
{
    match outcome {
        Ok(value) => {
            if *value == TARGET {
                Classification::IsTarget
            } else {
                Classification::NotTarget
            }
        },
        Err(_) => Classification::NotTarget,
    }
}

/// Classifies every outcome, keeping the order in which they were collected.
/// A failure in one place changes nothing about the classes after it.
pub fn classify_all(outcomes: &Vec<Outcome>) -> (report: Vec<Classification>)
    ensures
        report@ == classes_of(outcomes@),
{
    let mut report: Vec<Classification> = Vec::new();
    let mut i: usize = 0;
    while i < outcomes.len()
        invariant
            i <= outcomes.len(),
            report@ == classes_of(outcomes@.take(i as int)),
        decreases outcomes.len() - i,
    {
        report.push(classify(&outcomes[i]));
        i += 1;
        assert(report@ =~= classes_of(outcomes@.take(i as int)));
    }
    assert(outcomes@.take(i as int) =~= outcomes@);
    report
}

/// Counts the entries of a report that matched the target.
pub fn count_matches(report: &Vec<Classification>) -> (count: usize)
    ensures
        count == matches_in(report@),
{
    let mut count: usize = 0;
    let mut i: usize = 0;
    while i < report.len()
        invariant
            i <= report.len(),
            count <= i,
            count == matches_in(report@.take(i as int)),
        decreases report.len() - i,
    {
        assert(report@.take(i + 1).drop_last() =~= report@.take(i as int));
        if report[i] == Classification::IsTarget {
            count += 1;
        }
        i += 1;
    }
    assert(report@.take(i as int) =~= report@);
    count
}

} // verus!
