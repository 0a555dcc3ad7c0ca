//! The phase sequencer: setup, write, read, cleanup and report, each phase
//! fully drained before the next begins.
//!
//! The sequencer decides; its driver performs the backend calls and hands
//! back what happened. A failed setup ends the run. Failures of cleanup are
//! advisory and never do.

use vstd::prelude::*;
use std::time::Instant;
use crate::config::{BenchmarkConfig, Mode};
use crate::duration::{clock_now, time_between, whole_seconds};
use crate::runner::{drained, initial, Runner};
use crate::stats::{summarize, Stats};

verus! {

/// The phases of a run.
#[derive(Clone, Copy, Debug, PartialEq, Eq, Structural)]
pub enum Phase {
    /// The target is being created.
    Setup,
    /// The objects are being written.
    Write,
    /// The objects are being read back.
    Read,
    /// The objects, then the target, are being deleted.
    Cleanup,
    /// The run is complete and its statistics can be had.
    Report,
    /// The target could not be created; nothing was measured.
    Failed,
}

/// What the driver reports to the sequencer.
#[derive(Clone, Copy, Debug, PartialEq, Eq, Structural)]
pub enum Signal {
    /// The target exists.
    TargetCreated,
    /// The target could not be created.
    TargetCreationFailed,
    /// Every task of the current batch has completed.
    BatchDrained,
    /// The target was deleted.
    TargetRemoved,
    /// The target could not be deleted.
    TargetRemovalFailed,
}

/// What the driver does next.
#[derive(Clone, Copy, Debug, PartialEq, Eq, Structural)]
pub enum Step {
    /// Create the target, once, outside any batch.
    CreateTarget,
    /// Run the batch of the current phase through a runner.
    RunBatch,
    /// Delete the target, once, outside any batch.
    RemoveTarget,
    /// Summarize and render; no backend call is left.
    Summarize,
    /// Report the failure and end.
    Stop,
}

/// The phase after a signal, and whether the objects have been deleted.
/// A signal that the phase does not await changes nothing.
pub open spec fn transition(phase: Phase, swept: bool, mode: Mode, signal: Signal) -> (Phase, bool) {
    match phase {
        Phase::Setup => match signal {
            Signal::TargetCreated => (Phase::Write, false),
            Signal::TargetCreationFailed => (Phase::Failed, false),
            _ => (phase, swept),
        },
        Phase::Write => if signal is BatchDrained {
            if mode is WriteOnly {
                (Phase::Cleanup, false)
            } else {
                (Phase::Read, false)
            }
        } else {
            (phase, swept)
        },
        Phase::Read => if signal is BatchDrained {
            (Phase::Cleanup, false)
        } else {
            (phase, swept)
        },
        Phase::Cleanup => if !swept && signal is BatchDrained {
            (Phase::Cleanup, true)
        } else if swept && (signal is TargetRemoved || signal is TargetRemovalFailed) {
            (Phase::Report, true)
        } else {
            (phase, swept)
        },
        Phase::Report => (phase, swept),
        Phase::Failed => (phase, swept),
    }
}

/// How far a run has come.
pub open spec fn progress(phase: Phase, swept: bool) -> nat {
    match phase {
        Phase::Setup => 0,
        Phase::Write => 1,
        Phase::Read => 2,
        Phase::Cleanup => if swept {
            4
        } else {
            3
        },
        Phase::Report => 5,
        Phase::Failed => 5,
    }
}

/// What the driver does in a phase.
pub open spec fn step_of(phase: Phase, swept: bool) -> Step {
    match phase {
        Phase::Setup => Step::CreateTarget,
        Phase::Write => Step::RunBatch,
        Phase::Read => Step::RunBatch,
        Phase::Cleanup => if swept {
            Step::RemoveTarget
        } else {
            Step::RunBatch
        },
        Phase::Report => Step::Summarize,
        Phase::Failed => Step::Stop,
    }
}

/// A run only moves forward: a signal either changes nothing or takes the
/// run further, `Report` and `Failed` are final, and the run fails only
/// where the target could not be created. A write-only run never enters the
/// read phase.
pub proof fn lemma_transition_forward(phase: Phase, swept: bool, mode: Mode, signal: Signal)
    ensures
        transition(phase, swept, mode, signal) == (phase, swept) || progress(
            transition(phase, swept, mode, signal).0,
            transition(phase, swept, mode, signal).1,
        ) > progress(phase, swept),
        phase is Report || phase is Failed ==> transition(phase, swept, mode, signal) == (
            phase,
            swept,
        ),
        transition(phase, swept, mode, signal).0 is Failed <==> phase is Failed || (phase is Setup
            && signal is TargetCreationFailed),
        mode is WriteOnly && !(phase is Read) ==> !(transition(phase, swept, mode, signal).0 is Read),
{
}

/// The phase after a signal, and whether the objects have been deleted.
pub fn next_phase(phase: Phase, swept: bool, mode: Mode, signal: Signal) -> (next: (Phase, bool))
    ensures
        next == transition(phase, swept, mode, signal),
{
    match phase {
        Phase::Setup => match signal {
            Signal::TargetCreated => (Phase::Write, false),
            Signal::TargetCreationFailed => (Phase::Failed, false),
            _ => (phase, swept),
        },
        Phase::Write => match signal {
            Signal::BatchDrained => match mode {
                Mode::WriteOnly => (Phase::Cleanup, false),
                _ => (Phase::Read, false),
            },
            _ => (phase, swept),
        },
        Phase::Read => match signal {
            Signal::BatchDrained => (Phase::Cleanup, false),
            _ => (phase, swept),
        },
        Phase::Cleanup => match signal {
            Signal::BatchDrained => (Phase::Cleanup, true),
            Signal::TargetRemoved | Signal::TargetRemovalFailed => if swept {
                (Phase::Report, true)
            } else {
                (phase, swept)
            },
            _ => (phase, swept),
        },
        Phase::Report => (phase, swept),
        Phase::Failed => (phase, swept),
    }
}

/// Wall-clock time of the phases in whole seconds, as the clock gave it.
#[derive(Clone, Copy, Debug, PartialEq, Eq, Structural)]
pub struct PhaseTimes {
    pub write_secs: u64,
    pub read_secs: u64,
    pub cleanup_secs: u64,
    pub total_secs: u64,
}

/// The phase times after the phase `ended` has come to its end, `spent`
/// seconds after it began and `total` seconds after the write phase began.
/// The end of cleanup is the end of the run and settles the total; a phase
/// that is not timed leaves the times as they are.
pub open spec fn recorded(times: PhaseTimes, ended: Phase, spent: u64, total: u64) -> PhaseTimes {
    match ended {
        Phase::Write => PhaseTimes { write_secs: spent, ..times },
        Phase::Read => PhaseTimes { read_secs: spent, ..times },
        Phase::Cleanup => PhaseTimes { cleanup_secs: spent, total_secs: total, ..times },
        _ => times,
    }
}

/// Enters into the phase times that the phase `ended` took `spent` seconds
/// and that `total` seconds have passed since the write phase began.
pub fn record_times(times: PhaseTimes, ended: Phase, spent: u64, total: u64) -> (next: PhaseTimes)
    ensures
        next == recorded(times, ended, spent, total),
{
    match ended {
        Phase::Write => PhaseTimes {
            write_secs: spent,
            read_secs: times.read_secs,
            cleanup_secs: times.cleanup_secs,
            total_secs: times.total_secs,
        },
        Phase::Read => PhaseTimes {
            write_secs: times.write_secs,
            read_secs: spent,
            cleanup_secs: times.cleanup_secs,
            total_secs: times.total_secs,
        },
        Phase::Cleanup => PhaseTimes {
            write_secs: times.write_secs,
            read_secs: times.read_secs,
            cleanup_secs: spent,
            total_secs: total,
        },
        _ => times,
    }
}

/// The mathematical state of a sequencer.
pub struct SequencerState {
    pub phase: Phase,
    pub swept: bool,
    pub write_samples: Seq<u64>,
    pub read_samples: Seq<u64>,
}

/// The state after the batch of the current phase has drained with these
/// samples: the phase moves on, and the samples of a measured phase are
/// kept.
pub open spec fn after_batch(s: SequencerState, mode: Mode, samples: Seq<u64>) -> SequencerState {
    SequencerState {
        phase: transition(s.phase, s.swept, mode, Signal::BatchDrained).0,
        swept: transition(s.phase, s.swept, mode, Signal::BatchDrained).1,
        write_samples: if s.phase is Write {
            samples
        } else {
            s.write_samples
        },
        read_samples: if s.phase is Read {
            samples
        } else {
            s.read_samples
        },
    }
}

/// What a run reports: the summary of each measured phase that produced a
/// sample, and the phase times.
#[derive(Debug)]
pub struct Report {
    pub write: Option<Stats>,
    pub read: Option<Stats>,
    pub times: PhaseTimes,
}

/// The summary owed to the samples of a phase: none for no samples.
pub open spec fn summary_matches(
    stats: Option<Stats>,
    category: Seq<char>,
    samples: Seq<u64>,
    obj_size: nat,
) -> bool {
    if samples.len() == 0 {
        stats is None
    } else {
        stats matches Some(s) && s@ == summarize(category, samples, obj_size)
    }
}

/// Summarizes the samples of a phase, if it produced any.
pub fn summarize_phase(category: &'static str, samples: Vec<u64>, obj_size: usize) -> (stats:
    Option<Stats>)
    ensures
        summary_matches(stats, category@, samples@, obj_size as nat),
{
    match Stats::new(category, samples, obj_size) {
        Ok(stats) => Some(stats),
        Err(_) => None,
    }
}

/// The sequencer of one run.
pub struct Sequencer {
    config: BenchmarkConfig,
    phase: Phase,
    swept: bool,
    write_samples: Vec<u64>,
    read_samples: Vec<u64>,
    entered_write: Option<Instant>,
    entered_phase: Option<Instant>,
    times: PhaseTimes,
}

/// The whole seconds from a clock reading to another, as the clock gives
/// them; zero where there is no reading to count from.
fn seconds_since(mark: &Option<Instant>, now: &Instant) -> (secs: u64)
    ensures
        mark is None ==> secs == 0,
{
    match mark {
        Some(earlier) => {
            let span = time_between(now, earlier);
            whole_seconds(&span)
        },
        None => 0,
    }
}

impl Sequencer {
    /// The state of the sequencer.
    pub closed spec fn view(&self) -> SequencerState {
        SequencerState {
            phase: self.phase,
            swept: self.swept,
            write_samples: self.write_samples@,
            read_samples: self.read_samples@,
        }
    }

    /// The configuration of the run.
    pub closed spec fn spec_config(&self) -> BenchmarkConfig {
        self.config
    }

    /// The phase times recorded so far.
    pub closed spec fn spec_times(&self) -> PhaseTimes {
        self.times
    }

    /// The clock reading at which the current phase began, once the run
    /// has begun.
    pub closed spec fn spec_entered_phase(&self) -> Option<Instant> {
        self.entered_phase
    }

    /// The clock reading at which the write phase began, once it has.
    pub closed spec fn spec_entered_write(&self) -> Option<Instant> {
        self.entered_write
    }

    /// A run that has not begun.
    pub fn new(config: BenchmarkConfig) -> (sequencer: Sequencer)
        ensures
            sequencer.spec_config() == config,
            sequencer@ == (SequencerState {
                phase: Phase::Setup,
                swept: false,
                write_samples: Seq::empty(),
                read_samples: Seq::empty(),
            }),
    {
        Sequencer {
            config,
            phase: Phase::Setup,
            swept: false,
            write_samples: Vec::new(),
            read_samples: Vec::new(),
            entered_write: None,
            entered_phase: None,
            times: PhaseTimes { write_secs: 0, read_secs: 0, cleanup_secs: 0, total_secs: 0 },
        }
    }

    /// The current phase.
    pub fn phase(&self) -> (phase: Phase)
        ensures
            phase == self@.phase,
    {
        self.phase
    }

    /// The configuration of the run.
    pub fn config(&self) -> (config: BenchmarkConfig)
        ensures
            config == self.spec_config(),
    {
        self.config
    }

    /// What the driver does next.
    pub fn next_step(&self) -> (step: Step)
        ensures
            step == step_of(self@.phase, self@.swept),
    {
        match self.phase {
            Phase::Setup => Step::CreateTarget,
            Phase::Write => Step::RunBatch,
            Phase::Read => Step::RunBatch,
            Phase::Cleanup => if self.swept {
                Step::RemoveTarget
            } else {
                Step::RunBatch
            },
            Phase::Report => Step::Summarize,
            Phase::Failed => Step::Stop,
        }
    }

    /// Reads the clock at the change from the phase `before` to the
    /// current one. The time that `before` took, counted from the reading
    /// at which it began, is entered into the phase times, and with the end
    /// of cleanup the time since the write phase began; how long that was
    /// is the clock's to say, but it is zero where there is no reading to
    /// count from. The new reading becomes the beginning of the current
    /// phase, and of the write phase if that is the current one. The state
    /// and the configuration stay as they are.
    fn mark(&mut self, before: Phase)
        ensures
            final(self)@ == old(self)@,
            final(self).spec_config() == old(self).spec_config(),
            exists|spent: u64, total: u64|
                {
                    &&& final(self).spec_times() == #[trigger] recorded(
                        old(self).spec_times(),
                        before,
                        spent,
                        total,
                    )
                    &&& old(self).spec_entered_phase() is None ==> spent == 0
                    &&& old(self).spec_entered_write() is None ==> total == 0
                },
            final(self).spec_entered_phase() is Some,
            final(self).spec_entered_write() == if old(self)@.phase is Write {
                final(self).spec_entered_phase()
            } else {
                old(self).spec_entered_write()
            },
    {
        let now = clock_now();
        let spent = seconds_since(&self.entered_phase, &now);
        let total = seconds_since(&self.entered_write, &now);
        self.times = record_times(self.times, before, spent, total);
        if self.phase == Phase::Write {
            self.entered_write = Some(now);
        }
        self.entered_phase = Some(now);
        assert(self.times == recorded(old(self).spec_times(), before, spent, total));
    }

    /// Records whether the target was created: the run goes on to write,
    /// or fails. Outside `Setup` nothing changes.
    pub fn setup_finished(&mut self, created: bool)
        ensures
            final(self).spec_config() == old(self).spec_config(),
            final(self)@.write_samples == old(self)@.write_samples,
            final(self)@.read_samples == old(self)@.read_samples,
            (final(self)@.phase, final(self)@.swept) == transition(
                old(self)@.phase,
                old(self)@.swept,
                old(self).spec_config().spec_mode(),
                if created {
                    Signal::TargetCreated
                } else {
                    Signal::TargetCreationFailed
                },
            ),
    {
        let signal = if created {
            Signal::TargetCreated
        } else {
            Signal::TargetCreationFailed
        };
        let before = self.phase;
        let next = next_phase(self.phase, self.swept, self.config.mode(), signal);
        self.phase = next.0;
        self.swept = next.1;
        if before == Phase::Setup {
            self.mark(before);
        }
    }

    /// Whether the current phase runs a batch.
    pub fn awaits_batch(&self) -> (yes: bool)
        ensures
            yes == (step_of(self@.phase, self@.swept) is RunBatch),
    {
        match self.next_step() {
            Step::RunBatch => true,
            _ => false,
        }
    }

    /// The runner for the batch of the current phase: one task per object,
    /// under the configured limit and policy. There is none outside the
    /// phases that run a batch.
    pub fn begin_batch(&self) -> (runner: Option<Runner>)
        ensures
            step_of(self@.phase, self@.swept) is RunBatch <==> runner is Some,
            runner matches Some(r) ==> r.wf() && r@ == initial(
                self.spec_config().spec_count(),
                self.spec_config().spec_parallelism(),
                self.spec_config().spec_policy(),
            ),
    {
        if self.awaits_batch() {
            match Runner::new(self.config.count(), self.config.parallelism(), self.config.policy()) {
                Ok(runner) => Some(runner),
                Err(_) => None,
            }
        } else {
            None
        }
    }

    /// Takes the runner of the current phase back. This is the barrier
    /// between phases: the run moves on only if the phase runs a batch and
    /// the runner has seen every task of it complete; otherwise nothing
    /// changes and the answer is `false`.
    pub fn finish_batch(&mut self, runner: Runner) -> (accepted: bool)
        ensures
            final(self).spec_config() == old(self).spec_config(),
            accepted == (step_of(old(self)@.phase, old(self)@.swept) is RunBatch && drained(
                runner@,
            ) && runner@.total == old(self).spec_config().spec_count()),
            accepted ==> final(self)@ == after_batch(
                old(self)@,
                old(self).spec_config().spec_mode(),
                runner@.samples,
            ),
            !accepted ==> final(self)@ == old(self)@,
    {
        if !self.awaits_batch() || !runner.is_done() || runner.total() != self.config.count() {
            return false;
        }
        let before = self.phase;
        let samples = runner.into_samples();
        match before {
            Phase::Write => {
                self.write_samples = samples;
            },
            Phase::Read => {
                self.read_samples = samples;
            },
            _ => {},
        }
        let next = next_phase(self.phase, self.swept, self.config.mode(), Signal::BatchDrained);
        self.phase = next.0;
        self.swept = next.1;
        if self.phase != before {
            self.mark(before);
        }
        true
    }

    /// Records that the deletion of the target was tried. Whether it
    /// succeeded does not matter to the run: once the objects are deleted,
    /// the run goes on to report. Elsewhere nothing changes.
    pub fn target_removed(&mut self, removed: bool)
        ensures
            final(self).spec_config() == old(self).spec_config(),
            final(self)@.write_samples == old(self)@.write_samples,
            final(self)@.read_samples == old(self)@.read_samples,
            (final(self)@.phase, final(self)@.swept) == transition(
                old(self)@.phase,
                old(self)@.swept,
                old(self).spec_config().spec_mode(),
                if removed {
                    Signal::TargetRemoved
                } else {
                    Signal::TargetRemovalFailed
                },
            ),
    {
        let signal = if removed {
            Signal::TargetRemoved
        } else {
            Signal::TargetRemovalFailed
        };
        let before = self.phase;
        let next = next_phase(self.phase, self.swept, self.config.mode(), signal);
        self.phase = next.0;
        self.swept = next.1;
        if self.phase != before {
            self.mark(before);
        }
    }

    /// The report of a complete run: a summary named "write" and one named
    /// "read", each for a phase that produced a sample. There is no report
    /// before the run has reached `Report`.
    pub fn into_report(self) -> (report: Option<Report>)
        ensures
            self@.phase is Report <==> report is Some,
            report matches Some(r) ==> summary_matches(
                r.write,
                "write"@,
                self@.write_samples,
                self.spec_config().spec_payload_size(),
            ) && summary_matches(
                r.read,
                "read"@,
                self@.read_samples,
                self.spec_config().spec_payload_size(),
            ),
    {
        match self.phase {
            Phase::Report => {
                let size = self.config.payload_size();
                let write = summarize_phase("write", self.write_samples, size);
                let read = summarize_phase("read", self.read_samples, size);
                Some(Report { write, read, times: self.times })
            },
            _ => None,
        }
    }
}

} // verus!
