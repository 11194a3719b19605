//! Results of running and judging a single child process: the raw
//! observation made by whoever ran the process, and the judged outcome.

use vstd::prelude::*;

verus! {

/// Categorical result of judging one run of a solution.
#[derive(Clone, Copy, Debug, PartialEq, Eq, Structural)]
pub enum Verdict {
    /// The run finished and the output was accepted.
    Success,
    /// The run finished but the output was rejected.
    WrongAnswer,
    /// The process exited unsuccessfully.
    RuntimeError,
    /// The process exceeded its time limit.
    TimeLimitExceeded,
}

impl Verdict {
    /// Whether this verdict counts as a passing one.
    pub open spec fn spec_success(self) -> bool {
        self is Success
    }

    /// True exactly for the `Success` verdict.
    pub fn success(&self) -> (r: bool)
        ensures
            r == self.spec_success(),
    {
        matches!(self, Verdict::Success)
    }
}

/// How a child process finished, as observed by the caller that ran it.
#[derive(Clone, Copy, Debug, PartialEq, Eq, Structural)]
pub enum ExitKind {
    /// Exited successfully within the time limit.
    Normal,
    /// Exited with a failure status or crashed.
    Failed,
    /// Was still running when the time limit expired.
    TimedOut,
}

/// The raw observation of one child-process run: how it ended, what it
/// wrote to stdout, and how long it took, in milliseconds. Produced by the
/// caller that actually spawned the process; consumed by the judging logic.
#[derive(Clone, Debug, PartialEq, Eq)]
pub struct RawRun {
    pub kind: ExitKind,
    pub stdout: Vec<u8>,
    pub time_millis: u64,
}

impl RawRun {
    /// Whether the process finished successfully.
    pub open spec fn spec_success(self) -> bool {
        self.kind is Normal
    }

    /// True exactly when the process exited successfully in time.
    pub fn success(&self) -> (r: bool)
        ensures
            r == self.spec_success(),
    {
        matches!(self.kind, ExitKind::Normal)
    }
}

/// The judged result of one run: verdict, captured stdout, elapsed time.
#[derive(Clone, Debug, PartialEq, Eq)]
pub struct Outcome {
    pub verdict: Verdict,
    pub stdout: Vec<u8>,
    pub time_millis: u64,
}

impl Outcome {
    /// Whether the run passed.
    pub open spec fn spec_success(self) -> bool {
        self.verdict is Success
    }

    /// True exactly when the verdict is `Success`.
    pub fn success(&self) -> (r: bool)
        ensures
            r == self.spec_success(),
    {
        self.verdict.success()
    }
}

} // verus!
