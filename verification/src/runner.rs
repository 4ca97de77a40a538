//! The run itself: which worker to start or wait for next, and what the run
//! has collected so far.
//!
//! A [`Runner`] never starts or waits for anything. It names the next step
//! ([`Runner::next_action`]) and takes note of what the caller reports
//! ([`Runner::record_spawn`], [`Runner::record_join`]). Workers are started
//! in index order, then waited for in the same order, one at a time; a worker
//! that failed is noted like any other and the run goes on.

use vstd::prelude::*;
use crate::outcome::{
    class_of, classes_of, classify, worker_result, Classification, Outcome, WorkerFailure,
};

verus! {

/// Where a run stands.
#[derive(Clone, Copy, Debug, PartialEq, Eq, Structural)]
pub enum Phase {
    /// Some workers are still to be started.
    Spawning,
    /// Every worker was started; some are still to be waited for.
    Joining,
    /// Every worker was waited for.
    Done,
}

/// The next thing for the caller to do.
#[derive(Clone, Copy, Debug, PartialEq, Eq, Structural)]
pub enum Action {
    /// Start the worker with this index.
    Spawn(u32),
    /// Wait for the worker with this index.
    Join(u32),
    /// Nothing is left to do.
    Finish,
}

/// A run, as mathematics sees it.
pub struct RunnerView {
    /// How many workers the run has in all.
    pub count: nat,
    /// How many of them were started.
    pub spawned: nat,
    /// The classes of the workers waited for so far, in index order.
    pub report: Seq<Classification>,
}

/// The state of one run.
pub struct Runner {
    count: u32,
    spawned: u32,
    report: Vec<Classification>,
}

impl View for Runner {
    type V = RunnerView;

    closed spec fn view(&self) -> RunnerView {
        RunnerView { count: self.count as nat, spawned: self.spawned as nat, report: self.report@ }
    }
}

/// The outcomes of `count` workers that all completed: worker `i` yields `i`.
pub open spec fn echoed(count: nat) -> Seq<Outcome> {
    Seq::new(count, |i: int| Ok::<u32, WorkerFailure>(i as u32))
}

/// The report of a run of `count` workers that all completed.
pub open spec fn expected_report(count: nat) -> Seq<Classification> {
    classes_of(echoed(count))
}

impl RunnerView {
    /// Workers are started before any is waited for, and none is waited for
    /// that was not started.
    pub open spec fn wf(self) -> bool {
        &&& self.count <= u32::MAX
        &&& self.spawned <= self.count
        &&& self.report.len() <= self.spawned
        &&& self.report.len() > 0 ==> self.spawned == self.count
    }

    /// Where the run stands.
    pub open spec fn phase(self) -> Phase {
        if self.spawned < self.count {
            Phase::Spawning
        } else if self.report.len() < self.count {
            Phase::Joining
        } else {
            Phase::Done
        }
    }

    /// The next thing to do.
    pub open spec fn next(self) -> Action {
        match self.phase() {
            Phase::Spawning => Action::Spawn(self.spawned as u32),
            Phase::Joining => Action::Join(self.report.len() as u32),
            Phase::Done => Action::Finish,
        }
    }
}

impl Runner {
    /// The invariant of a run (see [`RunnerView::wf`]).
    pub open spec fn wf(&self) -> bool {
        self@.wf()
    }

    /// A run of `count` workers, none of them started.
    pub fn new(count: u32) -> (runner: Runner)
        ensures
            runner.wf(),
            runner@ == (RunnerView { count: count as nat, spawned: 0, report: Seq::empty() }),
    {
        Runner { count, spawned: 0, report: Vec::new() }
    }

    /// How many workers the run has in all.
    pub fn count(&self) -> (count: u32)
        ensures
            count == self@.count,
    {
        self.count
    }

    /// Where the run stands.
    pub fn phase(&self) -> (phase: Phase)
        requires
            self.wf(),
        ensures
            phase == self@.phase(),
    {
        if self.spawned < self.count {
            Phase::Spawning
        } else if self.report.len() < self.count as usize {
            Phase::Joining
        } else {
            Phase::Done
        }
    }

    /// The next thing for the caller to do: start the lowest worker not yet
    /// started; once all are started, wait for the lowest not yet waited for;
    /// once all are waited for, finish.
    pub fn next_action(&self) -> (action: Action)
        requires
            self.wf(),
        ensures
            action == self@.next(),
    {
        match self.phase() {
            Phase::Spawning => Action::Spawn(self.spawned),
            Phase::Joining => Action::Join(self.report.len() as u32),
            Phase::Done => Action::Finish,
        }
    }

    /// Notes that the worker named by [`Action::Spawn`] was started. Outside
    /// the spawning phase nothing changes and the answer is `false`.
    pub fn record_spawn(&mut self) -> (accepted: bool)
        requires
            old(self).wf(),
        ensures
            final(self).wf(),
            accepted == (old(self)@.phase() == Phase::Spawning),
            accepted ==> final(self)@ == (RunnerView {
                spawned: old(self)@.spawned + 1,
                ..old(self)@
            }),
            !accepted ==> final(self)@ == old(self)@,
    {
        if self.spawned < self.count {
            self.spawned = self.spawned + 1;
            true
        } else {
            false
        }
    }

    /// Notes the outcome of the worker named by [`Action::Join`] and gives
    /// its class. A failed worker is noted like any other, so the run goes on
    /// to the next one. Outside the joining phase nothing changes and the
    /// answer is `None`.
    pub fn record_join(&mut self, outcome: Outcome) -> (class: Option<Classification>)
        requires
            old(self).wf(),
        ensures
            final(self).wf(),
            class.is_some() == (old(self)@.phase() == Phase::Joining),
            class.is_some() ==> class == Some(class_of(outcome)) && final(self)@ == (RunnerView {
                report: old(self)@.report.push(class_of(outcome)),
                ..old(self)@
            }),
            class.is_none() ==> final(self)@ == old(self)@,
    {
        if self.spawned == self.count && self.report.len() < self.count as usize {
            let class = classify(&outcome);
            self.report.push(class);
            Some(class)
        } else {
            None
        }
    }

    /// The classes collected so far, in index order.
    pub fn report(&self) -> (report: &Vec<Classification>)
        ensures
            report@ == self@.report,
    {
        &self.report
    }

    /// Ends the run and hands out what it collected.
    pub fn into_report(self) -> (report: Vec<Classification>)
        ensures
            report@ == self@.report,
    {
        self.report
    }
}

/// Runs `count` workers one after another on the calling thread, following a
/// [`Runner`] step by step, and returns the report. No worker can fail here,
/// so the report is that of a run in which every worker completed.
pub fn sequential_run(count: u32) -> (report: Vec<Classification>)
    ensures
        report@ == expected_report(count as nat),
{
    let mut runner = Runner::new(count);
    let mut values: Vec<u32> = Vec::new();
    loop
        invariant_except_break
            runner.wf(),
            runner@.count == count,
            values.len() == runner@.spawned,
            forall|j: int| 0 <= j < values.len() ==> values[j] == j,
            runner@.report == expected_report(runner@.report.len()),
        ensures
            runner@.report == expected_report(count as nat),
        decreases 2 * count - runner@.spawned - runner@.report.len(),
    {
        match runner.next_action() {
            Action::Spawn(index) => {
                values.push(worker_result(index));
                runner.record_spawn();
            },
            Action::Join(index) => {
                let ghost before = runner@.report;
                runner.record_join(Ok(values[index as usize]));
                assert(runner@.report =~= expected_report(before.len() + 1));
            },
            Action::Finish => {
                break ;
            },
        }
    }
    runner.into_report()
}

} // verus!
