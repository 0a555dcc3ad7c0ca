use object_spam::config::{ConfigError, FailurePolicy};
use object_spam::runner::{Action, Runner, TaskOutcome};

fn runner(total: usize, limit: usize, policy: FailurePolicy) -> Runner {
    match Runner::new(total, limit, policy) {
        Ok(runner) => runner,
        Err(_) => panic!("a valid batch was refused"),
    }
}

// Drives a runner to the end, completing the oldest task in flight whenever
// the runner says to wait. Tasks whose index is in `failing` fail. Returns
// the largest number of tasks that were pending at once.
fn drive(runner: &mut Runner, failing: &[usize]) -> usize {
    let mut pending: Vec<usize> = Vec::new();
    let mut high_water: usize = 0;
    loop {
        match runner.next_action() {
            Action::Start { index } => {
                assert!(runner.can_start());
                assert_eq!(runner.start(), index);
                pending.push(index);
                if pending.len() > high_water {
                    high_water = pending.len();
                }
            }
            Action::Wait => {
                let index: usize = pending.remove(0);
                assert!(runner.can_complete(index));
                if failing.contains(&index) {
                    runner.complete(index, TaskOutcome::Failure);
                } else {
                    runner.complete(index, TaskOutcome::Success { nanos: 10_000_000 });
                }
            }
            Action::Done => break,
        }
        assert!(runner.in_flight() <= runner.limit());
        assert_eq!(runner.in_flight(), pending.len());
    }
    assert!(pending.is_empty());
    high_water
}

#[test]
fn zero_count_is_refused() {
    assert!(matches!(
        Runner::new(0, 3, FailurePolicy::ExcludeFromStats),
        Err(ConfigError::ZeroCount)
    ));
    assert!(matches!(
        Runner::new(0, 0, FailurePolicy::ExcludeFromStats),
        Err(ConfigError::ZeroCount)
    ));
}

#[test]
fn zero_parallelism_is_refused() {
    assert!(matches!(
        Runner::new(5, 0, FailurePolicy::ZeroFillStats),
        Err(ConfigError::ZeroParallelism)
    ));
}

#[test]
fn every_task_completes_under_the_limit() {
    let mut batch = runner(10, 3, FailurePolicy::ExcludeFromStats);
    let high_water: usize = drive(&mut batch, &[]);
    assert!(batch.is_done());
    assert_eq!(batch.completed(), 10);
    assert_eq!(batch.issued(), 10);
    assert_eq!(batch.in_flight(), 0);
    assert_eq!(high_water, 3);
    assert_eq!(batch.peak(), 3);
    assert_eq!(batch.samples().len(), 10);
    assert!(batch.failed().is_empty());
}

#[test]
fn a_limit_above_the_count_is_never_reached() {
    let mut batch = runner(4, 9, FailurePolicy::ExcludeFromStats);
    let high_water: usize = drive(&mut batch, &[]);
    assert_eq!(batch.completed(), 4);
    assert_eq!(high_water, 4);
    assert_eq!(batch.peak(), 4);
}

#[test]
fn one_task_with_one_slot() {
    let mut batch = runner(1, 1, FailurePolicy::ExcludeFromStats);
    assert_eq!(batch.next_action(), Action::Start { index: 1 });
    assert_eq!(batch.start(), 1);
    assert_eq!(batch.next_action(), Action::Wait);
    assert!(!batch.can_start());
    batch.complete(1, TaskOutcome::Success { nanos: 7 });
    assert_eq!(batch.next_action(), Action::Done);
    assert_eq!(batch.into_samples(), vec![7u64]);
}

#[test]
fn back_pressure_holds_the_next_task() {
    let mut batch = runner(5, 2, FailurePolicy::ExcludeFromStats);
    assert_eq!(batch.start(), 1);
    assert_eq!(batch.start(), 2);
    assert!(!batch.can_start());
    assert_eq!(batch.next_action(), Action::Wait);
    batch.complete(2, TaskOutcome::Success { nanos: 1 });
    assert!(batch.can_start());
    assert_eq!(batch.next_action(), Action::Start { index: 3 });
    assert!(!batch.can_complete(4));
    assert!(!batch.can_complete(0));
    assert!(!batch.can_complete(2));
    assert!(batch.can_complete(1));
    assert_eq!(batch.start(), 3);
    assert_eq!(batch.pending(), &vec![1usize, 3]);
    assert_eq!(batch.in_flight(), 2);
    assert_eq!(batch.peak(), 2);
}

#[test]
fn tasks_complete_in_any_order() {
    let mut batch = runner(3, 3, FailurePolicy::ExcludeFromStats);
    assert_eq!(batch.start(), 1);
    assert_eq!(batch.start(), 2);
    assert_eq!(batch.start(), 3);
    batch.complete(3, TaskOutcome::Success { nanos: 30 });
    batch.complete(1, TaskOutcome::Success { nanos: 10 });
    assert_eq!(batch.pending(), &vec![2usize]);
    assert!(!batch.is_done());
    batch.complete(2, TaskOutcome::Success { nanos: 20 });
    assert!(batch.is_done());
    assert_eq!(batch.next_action(), Action::Done);
    assert_eq!(batch.samples(), &vec![30u64, 10, 20]);
}

#[test]
fn failures_are_contained_and_excluded() {
    let mut batch = runner(8, 3, FailurePolicy::ExcludeFromStats);
    drive(&mut batch, &[2, 5, 8]);
    assert!(batch.is_done());
    assert_eq!(batch.completed(), 8);
    assert_eq!(batch.failed(), &vec![2usize, 5, 8]);
    assert_eq!(batch.samples(), &vec![10_000_000u64; 5]);
}

#[test]
fn failures_are_contained_and_zero_filled() {
    let mut batch = runner(4, 4, FailurePolicy::ZeroFillStats);
    drive(&mut batch, &[3]);
    assert!(batch.is_done());
    assert_eq!(batch.completed(), 4);
    assert_eq!(batch.failed(), &vec![3usize]);
    assert_eq!(batch.samples(), &vec![10_000_000u64, 10_000_000, 0, 10_000_000]);
}

#[test]
fn a_batch_of_failures_still_drains() {
    let mut batch = runner(3, 2, FailurePolicy::ExcludeFromStats);
    drive(&mut batch, &[1, 2, 3]);
    assert!(batch.is_done());
    assert_eq!(batch.failed().len(), 3);
    assert!(batch.samples().is_empty());
    assert_eq!(batch.total(), 3);
}
