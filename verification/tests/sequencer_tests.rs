use object_spam::config::{BenchmarkConfig, ConfigError, FailurePolicy, Mode};
use object_spam::runner::{Action, Runner, TaskOutcome};
use object_spam::sequencer::{
    next_phase, record_times, Phase, PhaseTimes, Sequencer, Signal, Step,
};
use object_spam::task::check_fetched_length;

fn config(size: usize, parallel: usize, count: usize, mode: Mode) -> BenchmarkConfig {
    match BenchmarkConfig::new(size, parallel, count, mode) {
        Ok(config) => config,
        Err(_) => panic!("a valid configuration was refused"),
    }
}

// Runs the batch of the current phase. `fetched` gives, for a task index,
// the length that a read of it fetches.
fn run_batch(sequencer: &mut Sequencer, nanos: u64, fetched: &dyn Fn(usize) -> usize) -> Vec<usize> {
    let mut runner: Runner = match sequencer.begin_batch() {
        Some(runner) => runner,
        None => panic!("the phase runs no batch"),
    };
    let expected: usize = sequencer.config().payload_size();
    let mut pending: Vec<usize> = Vec::new();
    loop {
        match runner.next_action() {
            Action::Start { index } => {
                runner.start();
                pending.push(index);
            }
            Action::Wait => {
                let index: usize = pending.remove(0);
                match check_fetched_length(expected, fetched(index)) {
                    Ok(()) => runner.complete(index, TaskOutcome::Success { nanos }),
                    Err(_) => runner.complete(index, TaskOutcome::Failure),
                }
            }
            Action::Done => break,
        }
    }
    assert!(runner.peak() <= sequencer.config().parallelism());
    let failed: Vec<usize> = runner.failed().clone();
    assert!(sequencer.finish_batch(runner));
    failed
}

#[test]
fn configuration_is_validated() {
    assert_eq!(
        BenchmarkConfig::new(1024, 3, 0, Mode::WriteThenRead),
        Err(ConfigError::ZeroCount)
    );
    assert_eq!(
        BenchmarkConfig::new(1024, 0, 10, Mode::WriteThenRead),
        Err(ConfigError::ZeroParallelism)
    );
    let valid = config(1024, 30, 10, Mode::WriteOnly);
    assert_eq!(valid.payload_size(), 1024);
    assert_eq!(valid.parallelism(), 30);
    assert_eq!(valid.count(), 10);
    assert_eq!(valid.mode(), Mode::WriteOnly);
    assert_eq!(valid.policy(), FailurePolicy::ExcludeFromStats);
    assert_eq!(
        valid.with_policy(FailurePolicy::ZeroFillStats).policy(),
        FailurePolicy::ZeroFillStats
    );
}

#[test]
fn ten_objects_three_at_a_time() {
    let mut run = Sequencer::new(config(1024, 3, 10, Mode::WriteThenRead));
    assert_eq!(run.phase(), Phase::Setup);
    assert_eq!(run.next_step(), Step::CreateTarget);
    run.setup_finished(true);
    assert_eq!(run.phase(), Phase::Write);
    assert!(run_batch(&mut run, 10_000_000, &|_| 1024).is_empty());
    assert_eq!(run.phase(), Phase::Read);
    assert!(run_batch(&mut run, 10_000_000, &|_| 1024).is_empty());
    assert_eq!(run.phase(), Phase::Cleanup);
    assert_eq!(run.next_step(), Step::RunBatch);
    run_batch(&mut run, 1, &|_| 1024);
    assert_eq!(run.phase(), Phase::Cleanup);
    assert_eq!(run.next_step(), Step::RemoveTarget);
    run.target_removed(true);
    assert_eq!(run.phase(), Phase::Report);
    assert_eq!(run.next_step(), Step::Summarize);
    let report = match run.into_report() {
        Some(report) => report,
        None => panic!("a complete run has a report"),
    };
    for stats in [report.write, report.read] {
        let stats = match stats {
            Some(stats) => stats,
            None => panic!("a measured phase has a summary"),
        };
        assert_eq!(stats.num_samples(), 10);
        assert_eq!(stats.average(), 10_000_000);
        assert_eq!(stats.bandwidth(), Some(102_400));
        assert_eq!(stats.histogram(), [10_000_000u64; 5]);
    }
    assert!(report.times.write_secs <= report.times.total_secs);
}

#[test]
fn a_short_read_fails_its_task_only() {
    let mut run = Sequencer::new(config(100, 5, 5, Mode::WriteThenRead));
    run.setup_finished(true);
    assert!(run_batch(&mut run, 2_000, &|_| 100).is_empty());
    let failed: Vec<usize> = run_batch(&mut run, 3_000, &|index| if index == 3 { 50 } else { 100 });
    assert_eq!(failed, vec![3usize]);
    assert_eq!(run.phase(), Phase::Cleanup);
    run_batch(&mut run, 1, &|_| 100);
    run.target_removed(true);
    let report = match run.into_report() {
        Some(report) => report,
        None => panic!("a complete run has a report"),
    };
    let write = match report.write {
        Some(stats) => stats,
        None => panic!("the write phase has a summary"),
    };
    assert_eq!(write.category(), "write");
    assert_eq!(write.num_samples(), 5);
    assert_eq!(write.sum(), 10_000);
    assert_eq!(write.bytes(), 500);
    let read = match report.read {
        Some(stats) => stats,
        None => panic!("the read phase has a summary"),
    };
    assert_eq!(read.category(), "read");
    assert_eq!(read.num_samples(), 4);
    assert_eq!(read.sum(), 12_000);
    assert_eq!(read.average(), 3_000);
    assert_eq!(read.bytes(), 400);
}

#[test]
fn zero_fill_keeps_a_sample_for_a_failed_read() {
    let settings = config(100, 5, 5, Mode::WriteThenRead).with_policy(FailurePolicy::ZeroFillStats);
    let mut run = Sequencer::new(settings);
    run.setup_finished(true);
    run_batch(&mut run, 2_000, &|_| 100);
    run_batch(&mut run, 3_000, &|index| if index == 3 { 50 } else { 100 });
    run_batch(&mut run, 1, &|_| 100);
    run.target_removed(false);
    let report = match run.into_report() {
        Some(report) => report,
        None => panic!("a complete run has a report"),
    };
    let read = match report.read {
        Some(stats) => stats,
        None => panic!("the read phase has a summary"),
    };
    assert_eq!(read.num_samples(), 5);
    assert_eq!(read.min(), 0);
    assert_eq!(read.sum(), 12_000);
    assert_eq!(read.average(), 2_400);
}

#[test]
fn a_failed_setup_ends_the_run() {
    let mut run = Sequencer::new(config(1, 1, 1, Mode::WriteThenRead));
    run.setup_finished(false);
    assert_eq!(run.phase(), Phase::Failed);
    assert_eq!(run.next_step(), Step::Stop);
    assert!(run.begin_batch().is_none());
    run.setup_finished(true);
    run.target_removed(true);
    assert_eq!(run.phase(), Phase::Failed);
    assert!(run.into_report().is_none());
}

#[test]
fn a_phase_does_not_end_before_its_batch_has_drained() {
    let mut run = Sequencer::new(config(64, 2, 3, Mode::WriteThenRead));
    assert!(run.begin_batch().is_none());
    run.setup_finished(true);
    let mut runner: Runner = match run.begin_batch() {
        Some(runner) => runner,
        None => panic!("the write phase runs a batch"),
    };
    runner.start();
    runner.complete(1, TaskOutcome::Success { nanos: 5 });
    assert!(!run.finish_batch(runner));
    assert_eq!(run.phase(), Phase::Write);
    run.target_removed(true);
    assert_eq!(run.phase(), Phase::Write);
    assert!(run.into_report().is_none());
}

#[test]
fn write_only_skips_the_read_phase() {
    let mut run = Sequencer::new(config(64, 2, 3, Mode::WriteOnly));
    run.setup_finished(true);
    run_batch(&mut run, 9, &|_| 64);
    assert_eq!(run.phase(), Phase::Cleanup);
    run_batch(&mut run, 9, &|_| 64);
    run.target_removed(false);
    assert_eq!(run.phase(), Phase::Report);
    let report = match run.into_report() {
        Some(report) => report,
        None => panic!("a complete run has a report"),
    };
    assert!(report.write.is_some());
    assert!(report.read.is_none());
}

#[test]
fn transitions_follow_the_table() {
    let wr = Mode::WriteThenRead;
    assert_eq!(next_phase(Phase::Setup, false, wr, Signal::TargetCreated), (Phase::Write, false));
    assert_eq!(
        next_phase(Phase::Setup, false, wr, Signal::TargetCreationFailed),
        (Phase::Failed, false)
    );
    assert_eq!(next_phase(Phase::Setup, false, wr, Signal::BatchDrained), (Phase::Setup, false));
    assert_eq!(next_phase(Phase::Write, false, wr, Signal::BatchDrained), (Phase::Read, false));
    assert_eq!(
        next_phase(Phase::Write, false, Mode::Mixed { read_percent: 30 }, Signal::BatchDrained),
        (Phase::Read, false)
    );
    assert_eq!(
        next_phase(Phase::Write, false, Mode::WriteOnly, Signal::BatchDrained),
        (Phase::Cleanup, false)
    );
    assert_eq!(next_phase(Phase::Read, false, wr, Signal::BatchDrained), (Phase::Cleanup, false));
    assert_eq!(next_phase(Phase::Cleanup, false, wr, Signal::BatchDrained), (Phase::Cleanup, true));
    assert_eq!(next_phase(Phase::Cleanup, false, wr, Signal::TargetRemoved), (Phase::Cleanup, false));
    assert_eq!(next_phase(Phase::Cleanup, true, wr, Signal::TargetRemoved), (Phase::Report, true));
    assert_eq!(
        next_phase(Phase::Cleanup, true, wr, Signal::TargetRemovalFailed),
        (Phase::Report, true)
    );
    assert_eq!(next_phase(Phase::Report, true, wr, Signal::BatchDrained), (Phase::Report, true));
    assert_eq!(next_phase(Phase::Failed, false, wr, Signal::TargetCreated), (Phase::Failed, false));
}

#[test]
fn phase_times_are_entered_at_the_end_of_each_phase() {
    let clear = PhaseTimes { write_secs: 0, read_secs: 0, cleanup_secs: 0, total_secs: 0 };
    let written = record_times(clear, Phase::Write, 4, 4);
    assert_eq!(
        written,
        PhaseTimes { write_secs: 4, read_secs: 0, cleanup_secs: 0, total_secs: 0 }
    );
    let read = record_times(written, Phase::Read, 3, 7);
    assert_eq!(read, PhaseTimes { write_secs: 4, read_secs: 3, cleanup_secs: 0, total_secs: 0 });
    let cleaned = record_times(read, Phase::Cleanup, 2, 9);
    assert_eq!(
        cleaned,
        PhaseTimes { write_secs: 4, read_secs: 3, cleanup_secs: 2, total_secs: 9 }
    );
    assert_eq!(record_times(cleaned, Phase::Setup, 5, 5), cleaned);
    assert_eq!(record_times(cleaned, Phase::Report, 5, 5), cleaned);
    assert_eq!(record_times(cleaned, Phase::Failed, 5, 5), cleaned);
}
