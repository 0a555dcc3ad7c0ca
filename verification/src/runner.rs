//! The bounded-concurrency runner: admission control for the tasks of one
//! phase.
//!
//! The runner is a state machine. Its driver asks `next_action`, starts a
//! task when told to, and reports each completion; the runner never lets
//! more tasks be in flight than the limit, and a failed task is recorded
//! and counted as complete, so a batch always drains.

use vstd::prelude::*;
use crate::config::{config_error, ConfigError, FailurePolicy};

verus! {

/// How one task ended.
#[derive(Clone, Copy, Debug, PartialEq, Eq, Structural)]
pub enum TaskOutcome {
    /// The operation succeeded after this many nanoseconds.
    Success { nanos: u64 },
    /// The operation failed. The driver logs the reason.
    Failure,
}

/// What the driver of a runner does next.
#[derive(Clone, Copy, Debug, PartialEq, Eq, Structural)]
pub enum Action {
    /// Start the task with this index.
    Start { index: usize },
    /// The limit is reached or every task was issued: await a completion.
    Wait,
    /// Every task has completed.
    Done,
}

/// The mathematical state of a runner.
pub struct RunnerState {
    pub total: nat,
    pub limit: nat,
    pub policy: FailurePolicy,
    pub issued: nat,
    pub pending: Seq<usize>,
    pub completed: nat,
    pub peak: nat,
    pub failed: Seq<usize>,
    pub samples: Seq<u64>,
}

/// What happens to a runner.
pub enum Event {
    /// The next task in index order was started.
    Start,
    /// The task with this index completed.
    Complete { index: usize, outcome: TaskOutcome },
}

/// The state before any task was started.
pub open spec fn initial(total: nat, limit: nat, policy: FailurePolicy) -> RunnerState {
    RunnerState {
        total,
        limit,
        policy,
        issued: 0,
        pending: Seq::empty(),
        completed: 0,
        peak: 0,
        failed: Seq::empty(),
        samples: Seq::empty(),
    }
}

impl RunnerState {
    /// The number of tasks in flight.
    pub open spec fn in_flight(self) -> nat {
        self.pending.len()
    }
}

/// The invariant of a runner: every task that was started is in flight or
/// has completed, and none is in flight twice; no more tasks are or ever
/// were in flight than the limit; and the samples are those that the policy
/// asks for.
pub open spec fn consistent(s: RunnerState) -> bool {
    &&& 1 <= s.total <= usize::MAX
    &&& s.limit >= 1
    &&& s.issued == s.pending.len() + s.completed
    &&& s.issued <= s.total
    &&& s.pending.len() <= s.peak <= s.limit
    &&& s.pending.no_duplicates()
    &&& forall|i: int| 0 <= i < s.pending.len() ==> 1 <= #[trigger] s.pending[i] <= s.issued
    &&& s.failed.len() <= s.completed
    &&& s.samples.len() == match s.policy {
        FailurePolicy::ExcludeFromStats => s.completed - s.failed.len(),
        FailurePolicy::ZeroFillStats => s.completed as int,
    }
}

/// A new task may start: some are left and the limit is not reached.
pub open spec fn may_start(s: RunnerState) -> bool {
    s.issued < s.total && s.pending.len() < s.limit
}

/// Every task has completed.
pub open spec fn drained(s: RunnerState) -> bool {
    s.completed == s.total
}

/// Whether an event can happen in a state.
pub open spec fn enabled(s: RunnerState, e: Event) -> bool {
    match e {
        Event::Start => may_start(s),
        Event::Complete { index, outcome } => s.pending.contains(index),
    }
}

/// The samples after a task has ended.
pub open spec fn record_sample(
    samples: Seq<u64>,
    policy: FailurePolicy,
    outcome: TaskOutcome,
) -> Seq<u64> {
    match outcome {
        TaskOutcome::Success { nanos } => samples.push(nanos),
        TaskOutcome::Failure => match policy {
            FailurePolicy::ExcludeFromStats => samples,
            FailurePolicy::ZeroFillStats => samples.push(0),
        },
    }
}

/// The state after an event.
pub open spec fn step(s: RunnerState, e: Event) -> RunnerState {
    match e {
        Event::Start => RunnerState {
            issued: s.issued + 1,
            pending: s.pending.push((s.issued + 1) as usize),
            peak: if s.pending.len() + 1 > s.peak {
                s.pending.len() + 1
            } else {
                s.peak
            },
            ..s
        },
        Event::Complete { index, outcome } => RunnerState {
            pending: s.pending.remove(s.pending.index_of(index)),
            completed: s.completed + 1,
            failed: if outcome is Failure {
                s.failed.push(index)
            } else {
                s.failed
            },
            samples: record_sample(s.samples, s.policy, outcome),
            ..s
        },
    }
}

/// What the driver does next in a state.
pub open spec fn action_of(s: RunnerState) -> Action {
    if may_start(s) {
        Action::Start { index: (s.issued + 1) as usize }
    } else if s.pending.len() > 0 {
        Action::Wait
    } else {
        Action::Done
    }
}

/// Every event of the sequence can happen in the state that the events
/// before it lead to.
pub open spec fn admissible(s: RunnerState, events: Seq<Event>) -> bool
    decreases events.len(),
{
    events.len() == 0 || (enabled(s, events[0]) && admissible(
        step(s, events[0]),
        events.drop_first(),
    ))
}

/// The state after a sequence of events.
pub open spec fn run(s: RunnerState, events: Seq<Event>) -> RunnerState
    decreases events.len(),
{
    if events.len() == 0 {
        s
    } else {
        run(step(s, events[0]), events.drop_first())
    }
}

/// The number of completions among the events.
pub open spec fn completions(events: Seq<Event>) -> nat
    decreases events.len(),
{
    if events.len() == 0 {
        0
    } else {
        completions(events.drop_first()) + if events[0] is Complete {
            1nat
        } else {
            0nat
        }
    }
}

/// The number of failed completions among the events.
pub open spec fn failures(events: Seq<Event>) -> nat
    decreases events.len(),
{
    if events.len() == 0 {
        0
    } else {
        failures(events.drop_first()) + if events[0] matches Event::Complete { outcome, .. }
            && outcome is Failure {
            1nat
        } else {
            0nat
        }
    }
}

/// An event that can happen keeps the invariant. A task that has completed
/// is in flight no longer, and the index of a task that starts was never
/// used before.
pub proof fn lemma_step_consistent(s: RunnerState, e: Event)
    requires
        consistent(s),
        enabled(s, e),
    ensures
        consistent(step(s, e)),
        e matches Event::Complete { index, .. } ==> !step(s, e).pending.contains(index) && 1
            <= index <= s.issued,
        e is Start ==> step(s, e).pending.last() == s.issued + 1 && !s.pending.contains(
            (s.issued + 1) as usize,
        ),
{
    let next = step(s, e);
    match e {
        Event::Start => {
            assert forall|i: int, j: int|
                0 <= i < next.pending.len() && 0 <= j < next.pending.len() && i != j implies next.pending[i]
                != next.pending[j] by {
                if i < s.pending.len() {
                    assert(s.pending[i] <= s.issued);
                }
                if j < s.pending.len() {
                    assert(s.pending[j] <= s.issued);
                }
            }
        },
        Event::Complete { index, outcome } => {
            let at = s.pending.index_of(index);
            s.pending.remove_ensures(at);
            assert forall|i: int| 0 <= i < next.pending.len() implies 1 <= #[trigger] next.pending[i]
                <= next.issued && next.pending[i] != index by {
                if i < at {
                    assert(next.pending[i] == s.pending[i]);
                } else {
                    assert(next.pending[i] == s.pending[i + 1]);
                }
            }
            assert forall|i: int, j: int|
                0 <= i < next.pending.len() && 0 <= j < next.pending.len() && i != j implies next.pending[i]
                != next.pending[j] by {
                let from_i = if i < at {
                    i
                } else {
                    i + 1
                };
                let from_j = if j < at {
                    j
                } else {
                    j + 1
                };
                assert(next.pending[i] == s.pending[from_i]);
                assert(next.pending[j] == s.pending[from_j]);
            }
            assert(match outcome {
                TaskOutcome::Success { nanos } => next.samples.len() == s.samples.len() + 1
                    && next.failed.len() == s.failed.len(),
                TaskOutcome::Failure => next.failed.len() == s.failed.len() + 1,
            });
        },
    }
}

/// However the events of a batch interleave, the runner's invariant holds
/// afterwards: no more tasks than the limit are in flight, and none ever
/// were; and the runner has counted each completion and each failure.
pub proof fn lemma_run_consistent(s: RunnerState, events: Seq<Event>)
    requires
        consistent(s),
        admissible(s, events),
    ensures
        consistent(run(s, events)),
        run(s, events).pending.len() <= run(s, events).peak <= s.limit,
        run(s, events).completed == s.completed + completions(events),
        run(s, events).failed.len() == s.failed.len() + failures(events),
        run(s, events).total == s.total,
        run(s, events).limit == s.limit,
        run(s, events).policy == s.policy,
    decreases events.len(),
{
    if events.len() > 0 {
        lemma_step_consistent(s, events[0]);
        lemma_run_consistent(step(s, events[0]), events.drop_first());
    }
}

/// A batch of `total` tasks under a limit of `limit`, driven from the start
/// until it is drained, has seen exactly `total` completions, never more
/// than `limit` tasks in flight, and has recorded exactly the failures that
/// occurred; under exclusion the samples are the successes, under zero-fill
/// there is a sample for every task.
pub proof fn lemma_batch_completes(
    total: nat,
    limit: nat,
    policy: FailurePolicy,
    events: Seq<Event>,
)
    requires
        1 <= total <= usize::MAX,
        limit >= 1,
        admissible(initial(total, limit, policy), events),
        drained(run(initial(total, limit, policy), events)),
    ensures
        completions(events) == total,
        failures(events) <= total,
        run(initial(total, limit, policy), events).pending.len() == 0,
        run(initial(total, limit, policy), events).peak <= limit,
        run(initial(total, limit, policy), events).failed.len() == failures(events),
        run(initial(total, limit, policy), events).samples.len() == match policy {
            FailurePolicy::ExcludeFromStats => total - failures(events),
            FailurePolicy::ZeroFillStats => total as int,
        },
{
    lemma_run_consistent(initial(total, limit, policy), events);
}

/// A runner that is not drained is never stuck: either a task may start or
/// one is in flight. It tells its driver to stop exactly when it is drained.
pub proof fn lemma_progress(s: RunnerState)
    requires
        consistent(s),
    ensures
        action_of(s) is Done <==> drained(s),
        !drained(s) ==> may_start(s) || s.pending.len() >= 1,
        action_of(s) matches Action::Start { index } ==> index == s.issued + 1 && enabled(
            s,
            Event::Start,
        ),
{
}

/// The runner of one batch.
#[derive(Debug)]
pub struct Runner {
    total: usize,
    limit: usize,
    policy: FailurePolicy,
    issued: usize,
    pending: Vec<usize>,
    completed: usize,
    peak: usize,
    failed: Vec<usize>,
    samples: Vec<u64>,
}

impl Runner {
    /// The state of the runner.
    pub closed spec fn view(&self) -> RunnerState {
        RunnerState {
            total: self.total as nat,
            limit: self.limit as nat,
            policy: self.policy,
            issued: self.issued as nat,
            pending: self.pending@,
            completed: self.completed as nat,
            peak: self.peak as nat,
            failed: self.failed@,
            samples: self.samples@,
        }
    }

    /// The invariant that every method keeps.
    pub open spec fn wf(&self) -> bool {
        consistent(self@)
    }

    /// A runner for `total` tasks with at most `limit` in flight. A count or
    /// a limit of zero is refused.
    pub fn new(total: usize, limit: usize, policy: FailurePolicy) -> (result: Result<
        Runner,
        ConfigError,
    >)
        ensures
            match config_error(total as nat, limit as nat) {
                Some(error) => result == Err::<Runner, ConfigError>(error),
                None => result matches Ok(runner) && runner.wf() && runner@ == initial(
                    total as nat,
                    limit as nat,
                    policy,
                ),
            },
    {
        if total == 0 {
            Err(ConfigError::ZeroCount)
        } else if limit == 0 {
            Err(ConfigError::ZeroParallelism)
        } else {
            Ok(
                Runner {
                    total,
                    limit,
                    policy,
                    issued: 0,
                    pending: Vec::new(),
                    completed: 0,
                    peak: 0,
                    failed: Vec::new(),
                    samples: Vec::new(),
                },
            )
        }
    }

    /// What the driver does next.
    pub fn next_action(&self) -> (action: Action)
        requires
            self.wf(),
        ensures
            action == action_of(self@),
            action is Done <==> drained(self@),
    {
        if self.issued < self.total && self.pending.len() < self.limit {
            Action::Start { index: self.issued + 1 }
        } else if self.pending.len() > 0 {
            Action::Wait
        } else {
            Action::Done
        }
    }

    /// Whether a new task may start.
    pub fn can_start(&self) -> (yes: bool)
        ensures
            yes == may_start(self@),
    {
        self.issued < self.total && self.pending.len() < self.limit
    }

    /// Where a task stands among those in flight, if it is in flight.
    fn position(&self, index: usize) -> (place: Option<usize>)
        ensures
            self@.pending.contains(index) <==> place is Some,
            place matches Some(at) ==> at < self@.pending.len() && self@.pending[at as int]
                == index,
    {
        let mut at: usize = 0;
        while at < self.pending.len()
            invariant
                at <= self.pending.len(),
                forall|i: int| 0 <= i < at ==> self.pending@[i] != index,
            decreases self.pending.len() - at,
        {
            if self.pending[at] == index {
                return Some(at);
            }
            at = at + 1;
        }
        None
    }

    /// Whether the completion of the task `index` can be reported: the
    /// task is in flight.
    pub fn can_complete(&self, index: usize) -> (yes: bool)
        ensures
            yes == self@.pending.contains(index),
            forall|outcome: TaskOutcome|
                yes == #[trigger] enabled(self@, Event::Complete { index, outcome }),
    {
        self.position(index).is_some()
    }

    /// Admits the next task in index order and returns its index.
    pub fn start(&mut self) -> (index: usize)
        requires
            old(self).wf(),
            may_start(old(self)@),
        ensures
            final(self).wf(),
            final(self)@ == step(old(self)@, Event::Start),
            index == old(self)@.issued + 1,
    {
        proof {
            lemma_step_consistent(self@, Event::Start);
        }
        self.issued = self.issued + 1;
        self.pending.push(self.issued);
        if self.pending.len() > self.peak {
            self.peak = self.pending.len();
        }
        self.issued
    }

    /// Records that the task `index` has ended. A failure is noted and the
    /// task counts as complete all the same.
    pub fn complete(&mut self, index: usize, outcome: TaskOutcome)
        requires
            old(self).wf(),
            enabled(old(self)@, Event::Complete { index, outcome }),
        ensures
            final(self).wf(),
            final(self)@ == step(old(self)@, Event::Complete { index, outcome }),
    {
        proof {
            lemma_step_consistent(self@, Event::Complete { index, outcome });
        }
        let place = self.position(index);
        let at = match place {
            Some(at) => at,
            None => 0,
        };
        assert(at == self@.pending.index_of(index));
        self.pending.remove(at);
        self.completed = self.completed + 1;
        match outcome {
            TaskOutcome::Success { nanos } => {
                self.samples.push(nanos);
            },
            TaskOutcome::Failure => {
                self.failed.push(index);
                match self.policy {
                    FailurePolicy::ExcludeFromStats => {},
                    FailurePolicy::ZeroFillStats => {
                        self.samples.push(0);
                    },
                }
            },
        }
    }

    /// Whether every task has completed.
    pub fn is_done(&self) -> (done: bool)
        ensures
            done == drained(self@),
    {
        self.completed == self.total
    }

    /// The number of tasks of the batch.
    pub fn total(&self) -> (total: usize)
        ensures
            total == self@.total,
    {
        self.total
    }

    /// The cap on tasks in flight.
    pub fn limit(&self) -> (limit: usize)
        ensures
            limit == self@.limit,
    {
        self.limit
    }

    /// The number of tasks started so far.
    pub fn issued(&self) -> (issued: usize)
        ensures
            issued == self@.issued,
    {
        self.issued
    }

    /// The number of tasks in flight.
    pub fn in_flight(&self) -> (in_flight: usize)
        ensures
            in_flight == self@.in_flight(),
    {
        self.pending.len()
    }

    /// The indices of the tasks in flight, in the order in which they
    /// started.
    pub fn pending(&self) -> (pending: &Vec<usize>)
        ensures
            pending@ == self@.pending,
    {
        &self.pending
    }

    /// The number of tasks that have ended, failed ones included.
    pub fn completed(&self) -> (completed: usize)
        ensures
            completed == self@.completed,
    {
        self.completed
    }

    /// The largest number of tasks that were in flight at once.
    pub fn peak(&self) -> (peak: usize)
        ensures
            peak == self@.peak,
    {
        self.peak
    }

    /// The indices of the tasks that failed, in the order of completion.
    pub fn failed(&self) -> (failed: &Vec<usize>)
        ensures
            failed@ == self@.failed,
    {
        &self.failed
    }

    /// The samples recorded so far, in the order of completion.
    pub fn samples(&self) -> (samples: &Vec<u64>)
        ensures
            samples@ == self@.samples,
    {
        &self.samples
    }

    /// Gives up the runner for its samples.
    pub fn into_samples(self) -> (samples: Vec<u64>)
        ensures
            samples@ == self@.samples,
    {
        self.samples
    }
}

} // verus!
