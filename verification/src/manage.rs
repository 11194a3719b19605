//! The manager merges UI intents and worker reports into one ordered event
//! stream, maintains the session state (`best_fitness`, `paused`), forwards
//! orders to the worker, and drives UI updates and test persistence.

use vstd::prelude::*;

use crate::comms::{Food, ManagerMessage, Note, OperationalError, Row, SessionError, WorkerOrder};

verus! {

/// Session state owned exclusively by the manager and mutated only from its
/// single event-processing loop: the best fitness seen among failing rows
/// (if any), and whether iteration is paused.
#[derive(Clone, Copy, Debug, PartialEq, Eq, Structural)]
pub struct Manager {
    pub best_fitness: Option<usize>,
    pub paused: bool,
}

/// What the manager asks its surroundings to do in response to one event.
/// The caller forwards `order` to the worker and pushes `food` to the UI
/// before it begins persisting `save_input` or surfacing `surface_error`.
#[derive(Debug, PartialEq, Eq)]
pub struct Effects {
    /// Order to forward to the worker, if any.
    pub order: Option<WorkerOrder>,
    /// Update to push to the UI.
    pub food: Food,
    /// Input to persist as a new regression test, if any; persistence runs
    /// asynchronously and must not block the event loop.
    pub save_input: Option<Vec<u8>>,
    /// Operational error to surface to the user, if any.
    pub surface_error: Option<OperationalError>,
}

/// Whether a reported row both failed and beats the best fitness seen so
/// far (the first failure always does).
pub open spec fn row_is_new_best(best: Option<usize>, row: Row) -> bool {
    !row.solution.spec_success() && match best {
        Some(b) => b < row.fitness,
        None => true,
    }
}

/// The best fitness after a row report: updated only by a failing row that
/// strictly improves on the current best.
pub open spec fn next_best_fitness(best: Option<usize>, row: Row) -> Option<usize> {
    if row_is_new_best(best, row) {
        Some(row.fitness)
    } else {
        best
    }
}

/// The manager's state after processing one event.
pub open spec fn step_state(m: Manager, msg: ManagerMessage) -> Manager {
    match msg {
        ManagerMessage::Note(Note::Start) => Manager { paused: false, ..m },
        ManagerMessage::Note(Note::Pause) => Manager { paused: true, ..m },
        ManagerMessage::Note(Note::Reset) => Manager { best_fitness: None, paused: false },
        ManagerMessage::Note(Note::Save { .. }) => Manager { paused: true, ..m },
        ManagerMessage::Report(Ok(row)) => Manager {
            best_fitness: next_best_fitness(m.best_fitness, row),
            ..m
        },
        ManagerMessage::Report(Err(_)) => Manager { best_fitness: None, paused: false },
    }
}

/// The order forwarded to the worker for one event. A save pauses the
/// worker first only when it was not already paused; pause orders are never
/// re-sent redundantly.
pub open spec fn step_order(m: Manager, msg: ManagerMessage) -> Option<WorkerOrder> {
    match msg {
        ManagerMessage::Note(Note::Start) => Some(WorkerOrder::Start),
        ManagerMessage::Note(Note::Pause) => Some(WorkerOrder::Pause),
        ManagerMessage::Note(Note::Reset) => Some(WorkerOrder::Reset),
        ManagerMessage::Note(Note::Save { .. }) => if m.paused {
            None
        } else {
            Some(WorkerOrder::Pause)
        },
        ManagerMessage::Report(_) => None,
    }
}

/// The UI update pushed for one event. A row's `input` travels outbound
/// exactly when the row failed and set a new best fitness.
pub open spec fn step_food(m: Manager, msg: ManagerMessage) -> Food {
    match msg {
        ManagerMessage::Note(Note::Start) => Food::State { running: true, reset: false },
        ManagerMessage::Note(Note::Pause) => Food::State { running: false, reset: false },
        ManagerMessage::Note(Note::Reset) => Food::State { running: false, reset: true },
        ManagerMessage::Note(Note::Save { .. }) => Food::State { running: false, reset: false },
        ManagerMessage::Report(Ok(row)) => Food::Row {
            number: row.number,
            outcome: row.solution.verdict,
            fitness: row.fitness,
            input: if row_is_new_best(m.best_fitness, row) {
                Some(row.input)
            } else {
                None
            },
        },
        ManagerMessage::Report(Err(_)) => Food::State { running: false, reset: true },
    }
}

/// The input to persist for one event: only a save note carries one.
pub open spec fn step_save(msg: ManagerMessage) -> Option<Vec<u8>> {
    match msg {
        ManagerMessage::Note(Note::Save { input }) => Some(input),
        _ => None,
    }
}

/// The error to surface for one event: only an operational worker failure
/// is shown; a cancellation resets the UI silently.
pub open spec fn step_surface(msg: ManagerMessage) -> Option<OperationalError> {
    match msg {
        ManagerMessage::Report(Err(SessionError::Operational(e))) => Some(e),
        _ => None,
    }
}

impl Manager {
    /// A fresh session: no best fitness yet, not paused.
    pub fn new() -> (m: Manager)
        ensures
            m == (Manager { best_fitness: None, paused: false }),
    {
        Manager { best_fitness: None, paused: false }
    }

    /// Processes one merged event: updates the session state and returns
    /// everything the surroundings must do for it.
    pub fn handle_message(&mut self, msg: ManagerMessage) -> (effects: Effects)
        ensures
            *final(self) == step_state(*old(self), msg),
            effects.order == step_order(*old(self), msg),
            effects.food == step_food(*old(self), msg),
            effects.save_input == step_save(msg),
            effects.surface_error == step_surface(msg),
    {
        match msg {
            ManagerMessage::Note(Note::Start) => {
                self.paused = false;
                Effects {
                    order: Some(WorkerOrder::Start),
                    food: Food::State { running: true, reset: false },
                    save_input: None,
                    surface_error: None,
                }
            },
            ManagerMessage::Note(Note::Pause) => {
                self.paused = true;
                Effects {
                    order: Some(WorkerOrder::Pause),
                    food: Food::State { running: false, reset: false },
                    save_input: None,
                    surface_error: None,
                }
            },
            ManagerMessage::Note(Note::Reset) => {
                self.best_fitness = None;
                self.paused = false;
                Effects {
                    order: Some(WorkerOrder::Reset),
                    food: Food::State { running: false, reset: true },
                    save_input: None,
                    surface_error: None,
                }
            },
            ManagerMessage::Note(Note::Save { input }) => {
                let order = if !self.paused {
                    self.paused = true;
                    Some(WorkerOrder::Pause)
                } else {
                    None
                };
                Effects {
                    order,
                    food: Food::State { running: false, reset: false },
                    save_input: Some(input),
                    surface_error: None,
                }
            },
            ManagerMessage::Report(Ok(row)) => {
                let is_failed = !row.solution.success();
                let new_best = is_failed && match self.best_fitness {
                    Some(bf) => bf < row.fitness,
                    None => true,
                };
                if new_best {
                    self.best_fitness = Some(row.fitness);
                }
                let number = row.number;
                let outcome = row.solution.verdict;
                let fitness = row.fitness;
                Effects {
                    order: None,
                    food: Food::Row {
                        number,
                        outcome,
                        fitness,
                        input: if new_best {
                            Some(row.input)
                        } else {
                            None
                        },
                    },
                    save_input: None,
                    surface_error: None,
                }
            },
            ManagerMessage::Report(Err(e)) => {
                self.best_fitness = None;
                self.paused = false;
                Effects {
                    order: None,
                    food: Food::State { running: false, reset: true },
                    save_input: None,
                    surface_error: match e {
                        SessionError::Operational(op) => Some(op),
                        SessionError::Cancelled => None,
                    },
                }
            },
        }
    }
}

/// Law: `best_fitness` is monotonically non-decreasing across row reports —
/// a row never clears it and never lowers it.
pub proof fn lemma_best_fitness_monotone(m: Manager, row: Row)
    ensures
        ({
            let after = step_state(m, ManagerMessage::Report(Ok(row))).best_fitness;
            &&& (m.best_fitness is Some ==> after is Some && after->0 >= m.best_fitness->0)
        }),
{
}

/// Law: within a session — that is, across any event other than a Reset
/// note or an erroneous report — `best_fitness` never goes away and never
/// decreases.
pub proof fn lemma_best_fitness_never_decreases(m: Manager, msg: ManagerMessage)
    requires
        !(msg matches ManagerMessage::Note(Note::Reset)),
        !(msg matches ManagerMessage::Report(Err(_))),
    ensures
        m.best_fitness is Some ==> {
            let after = step_state(m, msg).best_fitness;
            after is Some && after->0 >= m.best_fitness->0
        },
{
}

/// Law: a Reset note and any erroneous report clear `best_fitness` and
/// leave the manager unpaused, regardless of prior state.
pub proof fn lemma_reset_and_error_clear(m: Manager, msg: ManagerMessage)
    requires
        msg == ManagerMessage::Note(Note::Reset) || msg matches ManagerMessage::Report(Err(_)),
    ensures
        step_state(m, msg).best_fitness is None,
        !step_state(m, msg).paused,
{
}

/// Law: a row's `input` is present in the outbound update if and only if
/// the row both failed and set a new best fitness.
pub proof fn lemma_row_input_iff_new_best(m: Manager, row: Row)
    ensures
        ({
            let food = step_food(m, ManagerMessage::Report(Ok(row)));
            &&& food matches Food::Row { input, .. }
            &&& (food->Row_input is Some <==> !row.solution.spec_success() && (
            m.best_fitness is None || m.best_fitness->0 < row.fitness))
        }),
{
}

/// Law: a Pause note followed immediately by a Start note resumes with
/// `best_fitness` untouched (the worker keeps its numbering on its side).
pub proof fn lemma_pause_then_start_resumes(m: Manager)
    ensures
        ({
            let after = step_state(
                step_state(m, ManagerMessage::Note(Note::Pause)),
                ManagerMessage::Note(Note::Start),
            );
            &&& after.best_fitness == m.best_fitness
            &&& !after.paused
        }),
{
}

/// Law: saving pauses before persistence begins — after a save note the
/// manager is paused and the input is handed over for persistence; a pause
/// order accompanies it exactly when the manager was not already paused.
pub proof fn lemma_save_pauses_first(m: Manager, input: Vec<u8>)
    ensures
        step_state(m, ManagerMessage::Note(Note::Save { input })).paused,
        step_order(m, ManagerMessage::Note(Note::Save { input })) == if m.paused {
            None::<WorkerOrder>
        } else {
            Some(WorkerOrder::Pause)
        },
        step_save(ManagerMessage::Note(Note::Save { input })) == Some(input),
{
}

} // verus!
