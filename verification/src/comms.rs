//! The control-message protocol between the UI, the manager and the
//! discovery worker: UI intents, worker orders, worker reports and UI-bound
//! updates, all as explicit sum types with exhaustive matching.

use vstd::prelude::*;

use crate::outcome::{Outcome, Verdict};

verus! {

/// One discovery iteration's result, reported by the worker to the manager.
#[derive(Clone, Debug, PartialEq, Eq)]
pub struct Row {
    /// Position of this iteration within its session, starting at 1.
    pub number: u64,
    /// The judged run of the solution under test on the generated input.
    pub solution: Outcome,
    /// Fitness score of the generated input.
    pub fitness: usize,
    /// The generated input itself.
    pub input: Vec<u8>,
}

/// Control signal from the manager to the discovery worker; consumed once.
#[derive(Clone, Copy, Debug, PartialEq, Eq, Structural)]
pub enum WorkerOrder {
    Start,
    Pause,
    Reset,
}

/// UI-originated intent, consumed by the manager.
#[derive(Clone, Debug, PartialEq, Eq)]
pub enum Note {
    Start,
    Pause,
    Reset,
    Save { input: Vec<u8> },
}

/// A failure that aborts the current discovery session or save operation;
/// always surfaced to the user exactly once.
#[derive(Clone, Copy, Debug, PartialEq, Eq, Structural)]
pub enum OperationalError {
    /// A source directory failed to build.
    BuildFailed,
    /// A child process could not be spawned.
    SpawnFailed,
    /// The test generator exited unsuccessfully.
    GeneratorFailed,
    /// The brute-force reference solution exited unsuccessfully.
    ReferenceFailed,
    /// A test could not be persisted to storage.
    StorageFailed,
}

/// Why a discovery session ended without producing further rows.
#[derive(Clone, Copy, Debug, PartialEq, Eq, Structural)]
pub enum SessionError {
    /// User-initiated termination: not a failure, never shown to the user,
    /// but the manager still resets the UI state.
    Cancelled,
    /// A worker-side fatal error; surfaced to the user.
    Operational(OperationalError),
}

/// UI-bound update produced by the manager.
#[derive(Clone, Debug, PartialEq, Eq)]
pub enum Food {
    /// Whether the worker is iterating, and whether the table should clear.
    State { running: bool, reset: bool },
    /// One discovery result; `input` is attached only when this row set a
    /// new best fitness, to limit outbound bandwidth.
    Row { number: u64, outcome: Verdict, fitness: usize, input: Option<Vec<u8>> },
}

/// A merged event consumed by the manager: a UI note or a worker report.
/// Arrival order is preserved within each source; no ordering is guaranteed
/// across the two sources beyond arrival time.
#[derive(Debug, PartialEq, Eq)]
pub enum ManagerMessage {
    Note(Note),
    Report(Result<Row, SessionError>),
}

} // verus!
