use fanout::outcome::{worker_result, Classification, Outcome, WorkerFailure};
use fanout::runner::{sequential_run, Action, Phase, Runner};

fn drive(count: u32, fail: Option<u32>) -> (Vec<Action>, Vec<Classification>) {
    let mut runner = Runner::new(count);
    let mut actions = Vec::new();
    let mut pending: Vec<Outcome> = Vec::new();
    loop {
        let action = runner.next_action();
        actions.push(action);
        match action {
            Action::Spawn(index) => {
                if fail == Some(index) {
                    pending.push(Err(WorkerFailure));
                } else {
                    pending.push(Ok(worker_result(index)));
                }
                assert!(runner.record_spawn());
            }
            Action::Join(index) => {
                assert!(runner.record_join(pending[index as usize]).is_some());
            }
            Action::Finish => break,
        }
    }
    (actions, runner.into_report())
}

#[test]
fn new_run_is_spawning() {
    let runner = Runner::new(10);
    assert_eq!(runner.count(), 10);
    assert_eq!(runner.phase(), Phase::Spawning);
    assert_eq!(runner.next_action(), Action::Spawn(0));
    assert!(runner.report().is_empty());
}

#[test]
fn empty_run_is_done_at_once() {
    let mut runner = Runner::new(0);
    assert_eq!(runner.phase(), Phase::Done);
    assert_eq!(runner.next_action(), Action::Finish);
    assert!(!runner.record_spawn());
    assert_eq!(runner.record_join(Ok(3)), None);
    assert!(runner.into_report().is_empty());
}

#[test]
fn all_spawns_come_before_any_join() {
    let (actions, _) = drive(3, None);
    assert_eq!(
        actions,
        vec![
            Action::Spawn(0),
            Action::Spawn(1),
            Action::Spawn(2),
            Action::Join(0),
            Action::Join(1),
            Action::Join(2),
            Action::Finish,
        ]
    );
}

#[test]
fn join_before_all_spawned_is_refused() {
    let mut runner = Runner::new(2);
    assert!(runner.record_spawn());
    assert_eq!(runner.record_join(Ok(0)), None);
    assert_eq!(runner.phase(), Phase::Spawning);
    assert_eq!(runner.next_action(), Action::Spawn(1));
    assert!(runner.report().is_empty());
}

#[test]
fn spawn_after_all_spawned_is_refused() {
    let mut runner = Runner::new(1);
    assert!(runner.record_spawn());
    assert_eq!(runner.phase(), Phase::Joining);
    assert!(!runner.record_spawn());
    assert_eq!(runner.next_action(), Action::Join(0));
}

#[test]
fn join_gives_the_class_and_moves_on() {
    let mut runner = Runner::new(2);
    assert!(runner.record_spawn());
    assert!(runner.record_spawn());
    assert_eq!(runner.record_join(Ok(3)), Some(Classification::IsTarget));
    assert_eq!(runner.next_action(), Action::Join(1));
    assert_eq!(runner.record_join(Err(WorkerFailure)), Some(Classification::NotTarget));
    assert_eq!(runner.phase(), Phase::Done);
    assert_eq!(runner.record_join(Ok(3)), None);
    assert_eq!(
        runner.report(),
        &vec![Classification::IsTarget, Classification::NotTarget]
    );
}

#[test]
fn driven_run_of_ten() {
    let (actions, report) = drive(10, None);
    assert_eq!(actions.len(), 21);
    assert_eq!(report.len(), 10);
    for (index, class) in report.iter().enumerate() {
        assert_eq!(*class == Classification::IsTarget, index == 3);
    }
}

#[test]
fn driven_run_with_failed_target_worker() {
    let (actions, report) = drive(10, Some(3));
    assert_eq!(actions.len(), 21);
    assert_eq!(actions[13], Action::Join(3));
    assert_eq!(actions[14], Action::Join(4));
    assert_eq!(report, vec![Classification::NotTarget; 10]);
}

#[test]
fn sequential_run_of_none() {
    assert!(sequential_run(0).is_empty());
}

#[test]
fn sequential_run_of_one() {
    assert_eq!(sequential_run(1), vec![Classification::NotTarget]);
}

#[test]
fn sequential_run_of_four() {
    assert_eq!(
        sequential_run(4),
        vec![
            Classification::NotTarget,
            Classification::NotTarget,
            Classification::NotTarget,
            Classification::IsTarget,
        ]
    );
}

#[test]
fn sequential_run_of_ten() {
    let report = sequential_run(10);
    assert_eq!(report.len(), 10);
    assert_eq!(report.iter().filter(|class| **class == Classification::IsTarget).count(), 1);
    assert_eq!(report.iter().filter(|class| **class == Classification::NotTarget).count(), 9);
    assert_eq!(report[3], Classification::IsTarget);
}

#[test]
fn sequential_run_twice_is_the_same() {
    assert_eq!(sequential_run(10), sequential_run(10));
    assert_eq!(sequential_run(0), sequential_run(0));
}

#[test]
fn sequential_run_agrees_with_driven_run() {
    for count in 0..8 {
        assert_eq!(sequential_run(count), drive(count, None).1);
    }
}
