//! The discovery worker: the stress-test loop that generates a candidate
//! input, computes a reference output with the brute-force solution, runs
//! the solution under test, judges and scores the result, and reports a row
//! — all controlled by Start/Pause/Reset orders taking effect only at
//! iteration boundaries. The caller owns the processes and the channels; it
//! hands every observation to this state machine as plain values.

use vstd::prelude::*;

use crate::comms::{OperationalError, Row, WorkerOrder};
use crate::fitness::FitnessEvaluator;
use crate::outcome::{Outcome, RawRun};
use crate::task::{simple_test, spec_judge, Task};

verus! {

/// The worker's control state. `number` is the next row number within the
/// active session.
#[derive(Clone, Copy, Debug, PartialEq, Eq, Structural)]
pub enum WorkerState {
    /// Blocked waiting for a Start order.
    Idle,
    /// Actively iterating; a status indicator is shown.
    Running { number: u64 },
    /// Blocked waiting for Start or Reset; the status indicator is cleared.
    PausedWaiting { number: u64 },
}

/// The worker's state after one order, observed at an iteration boundary.
/// Start begins a session from Idle and resumes from PausedWaiting but is a
/// no-op while Running; Pause suspends only a running session; Reset aborts
/// the session, and redundant orders while Idle are idempotent no-ops.
pub open spec fn order_step(s: WorkerState, o: WorkerOrder) -> WorkerState {
    match s {
        WorkerState::Idle => match o {
            WorkerOrder::Start => WorkerState::Running { number: 1 },
            WorkerOrder::Pause => WorkerState::Idle,
            WorkerOrder::Reset => WorkerState::Idle,
        },
        WorkerState::Running { number } => match o {
            WorkerOrder::Start => WorkerState::Running { number },
            WorkerOrder::Pause => WorkerState::PausedWaiting { number },
            WorkerOrder::Reset => WorkerState::Idle,
        },
        WorkerState::PausedWaiting { number } => match o {
            WorkerOrder::Start => WorkerState::Running { number },
            WorkerOrder::Pause => WorkerState::PausedWaiting { number },
            WorkerOrder::Reset => WorkerState::Idle,
        },
    }
}

/// One discovery worker. Exactly one exists per session context; it owns no
/// shared mutable state beyond what it reports.
pub struct DiscoverWorker {
    pub state: WorkerState,
    /// The numbers of the rows emitted in the current session, oldest first.
    pub emitted: Ghost<Seq<u64>>,
}

impl DiscoverWorker {
    /// Well-formedness: the emitted numbers are exactly 1, 2, 3, ... and in
    /// an active session the next number continues that run.
    pub open spec fn wf(self) -> bool {
        &&& (forall|i: int| 0 <= i < self.emitted@.len() ==> self.emitted@[i] == i + 1)
        &&& match self.state {
            WorkerState::Idle => true,
            WorkerState::Running { number } => number == self.emitted@.len() + 1,
            WorkerState::PausedWaiting { number } => number == self.emitted@.len() + 1,
        }
    }

    /// A worker that has not yet received any order.
    pub fn new() -> (w: DiscoverWorker)
        ensures
            w.wf(),
            w.state == WorkerState::Idle,
            w.emitted@ == Seq::<u64>::empty(),
    {
        DiscoverWorker { state: WorkerState::Idle, emitted: Ghost(Seq::empty()) }
    }

    /// Applies one control order at an iteration boundary (or while blocked
    /// waiting for one). Returns true exactly when the order cancels a
    /// paused session: the caller then reports `SessionError::Cancelled`
    /// upward. A Reset observed while running ends the session silently.
    pub fn handle_order(&mut self, order: WorkerOrder) -> (cancelled: bool)
        requires
            old(self).wf(),
        ensures
            final(self).wf(),
            final(self).state == order_step(old(self).state, order),
            cancelled == (old(self).state matches WorkerState::PausedWaiting { .. }
                && order is Reset),
            final(self).emitted@ == if old(self).state is Idle && order is Start {
                Seq::<u64>::empty()
            } else {
                old(self).emitted@
            },
    {
        let was_paused = matches!(self.state, WorkerState::PausedWaiting { .. });
        match (self.state, order) {
            (WorkerState::Idle, WorkerOrder::Start) => {
                self.state = WorkerState::Running { number: 1 };
                self.emitted = Ghost(Seq::empty());
            },
            (WorkerState::Idle, _) => {},
            (WorkerState::Running { number }, WorkerOrder::Start) => {
                self.state = WorkerState::Running { number };
            },
            (WorkerState::Running { number }, WorkerOrder::Pause) => {
                self.state = WorkerState::PausedWaiting { number };
            },
            (WorkerState::Running { .. }, WorkerOrder::Reset) => {
                self.state = WorkerState::Idle;
            },
            (WorkerState::PausedWaiting { number }, WorkerOrder::Start) => {
                self.state = WorkerState::Running { number };
            },
            (WorkerState::PausedWaiting { number }, WorkerOrder::Pause) => {
                self.state = WorkerState::PausedWaiting { number };
            },
            (WorkerState::PausedWaiting { .. }, WorkerOrder::Reset) => {
                self.state = WorkerState::Idle;
            },
        }
        was_paused && matches!(order, WorkerOrder::Reset)
    }

    /// A worker-side fatal error (build, generator, brute or runner
    /// failure) ends the session; the worker returns to Idle, ready to
    /// accept a new Start. The caller reports the error upward.
    pub fn fail_session(&mut self)
        requires
            old(self).wf(),
        ensures
            final(self).wf(),
            final(self).state == WorkerState::Idle,
    {
        self.state = WorkerState::Idle;
    }

    /// Completes one iteration of a running session: judges the solution's
    /// raw run against the reference output, scores the candidate input,
    /// and produces the row to report, advancing the session's numbering by
    /// exactly one.
    pub fn complete_iteration(
        &mut self,
        task: &Task,
        evaluator: &FitnessEvaluator,
        input: Vec<u8>,
        desired: &Vec<u8>,
        solution_run: RawRun,
    ) -> (row: Row)
        requires
            old(self).wf(),
            old(self).state matches WorkerState::Running { number } && number < u64::MAX,
        ensures
            final(self).wf(),
            old(self).state matches WorkerState::Running { number } ==> {
                &&& row.number == number
                &&& final(self).state == (WorkerState::Running { number: (number + 1) as u64 })
                &&& final(self).emitted@ == old(self).emitted@.push(number)
            },
            row.solution.verdict == spec_judge(task.checker, solution_run, desired@, None),
            row.solution.stdout@ == solution_run.stdout@,
            row.solution.time_millis == solution_run.time_millis,
            row.fitness == evaluator.spec_evaluate(input@),
            row.input == input,
    {
        let number = match self.state {
            WorkerState::Running { number } => number,
            _ => 0,  // unreachable under the precondition
        };
        let outcome: Outcome = simple_test(task, solution_run, desired.as_slice(), None);
        let fitness = evaluator.evaluate(input.as_slice());
        self.state = WorkerState::Running { number: number + 1 };
        proof {
            self.emitted@ = self.emitted@.push(number);
        }
        Row { number, solution: outcome, fitness, input }
    }
}

/// Accepts the generator's run: its stdout is the candidate input; an
/// unsuccessful generator run aborts the session with an operational error.
pub fn accept_generated(run: RawRun) -> (r: Result<Vec<u8>, OperationalError>)
    ensures
        r == if run.spec_success() {
            Ok::<Vec<u8>, OperationalError>(run.stdout)
        } else {
            Err(OperationalError::GeneratorFailed)
        },
{
    if run.success() {
        Ok(run.stdout)
    } else {
        Err(OperationalError::GeneratorFailed)
    }
}

/// Accepts the brute-force reference run on the candidate input: its stdout
/// is the desired output; an unsuccessful run aborts the session (or save
/// operation) with an operational error.
pub fn accept_reference(run: RawRun) -> (r: Result<Vec<u8>, OperationalError>)
    ensures
        r == if run.spec_success() {
            Ok::<Vec<u8>, OperationalError>(run.stdout)
        } else {
            Err(OperationalError::ReferenceFailed)
        },
{
    if run.success() {
        Ok(run.stdout)
    } else {
        Err(OperationalError::ReferenceFailed)
    }
}

/// Law: within one session the reported row numbers are exactly
/// 1, 2, 3, ...: they start at 1 and increase by exactly 1, with no gaps
/// and no repeats; a Reset starts a fresh session whose numbering restarts
/// at 1.
pub proof fn lemma_row_numbers_consecutive(w: DiscoverWorker)
    requires
        w.wf(),
    ensures
        forall|i: int| 0 <= i < w.emitted@.len() ==> w.emitted@[i] == i + 1,
        forall|i: int| 1 <= i < w.emitted@.len() ==> #[trigger] w.emitted@[i] == w.emitted@[i - 1]
            + 1,
{
}

/// Law: a Pause order followed by a Start order returns a running session
/// to Running with its numbering untouched.
pub proof fn lemma_pause_then_start_keeps_number(s: WorkerState)
    requires
        s matches WorkerState::Running { .. },
    ensures
        order_step(order_step(s, WorkerOrder::Pause), WorkerOrder::Start) == s,
{
}

} // verus!
