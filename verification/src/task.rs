//! The execution-and-verification policy of a session: which comparison
//! policy accepts an output, what limits child processes run under, and how
//! a raw process run is judged into an `Outcome`.

use vstd::prelude::*;

use crate::checker::{ws_tokens, ws_tokens_equal};
use crate::outcome::{ExitKind, Outcome, RawRun, Verdict};

verus! {

/// Comparison policy between actual and expected output.
#[derive(Clone, Copy, Debug, PartialEq, Eq, Structural)]
pub enum Checker {
    /// Accepts when both outputs hold the same whitespace-separated tokens.
    FreeWhitespace,
}

impl Checker {
    /// Whether this policy accepts `actual` against `expected`.
    pub open spec fn spec_accepts(self, actual: Seq<u8>, expected: Seq<u8>) -> bool {
        match self {
            Checker::FreeWhitespace => ws_tokens(actual) == ws_tokens(expected),
        }
    }

    /// Decides pass/fail for an actual output against an expected one.
    /// Does not itself run anything.
    pub fn accepts(&self, actual: &[u8], expected: &[u8]) -> (r: bool)
        ensures
            r == self.spec_accepts(actual@, expected@),
    {
        match self {
            Checker::FreeWhitespace => ws_tokens_equal(actual, expected),
        }
    }
}

/// Execution limits for child processes; `None` means unbounded.
#[derive(Clone, Copy, Debug, PartialEq, Eq, Structural)]
pub struct Environment {
    pub time_limit_millis: Option<u64>,
}

/// Bundles a comparison policy with the environment runs happen under;
/// immutable, one per session.
#[derive(Clone, Copy, Debug, PartialEq, Eq, Structural)]
pub struct Task {
    pub checker: Checker,
    pub environment: Environment,
}

/// The verdict owed to a raw run: a timeout and an unsuccessful exit are
/// encoded as verdicts; a finished run passes iff the checker accepts its
/// output against the expected output or, if present, the alternate one.
pub open spec fn spec_judge(
    checker: Checker,
    run: RawRun,
    expected: Seq<u8>,
    alt: Option<Seq<u8>>,
) -> Verdict {
    match run.kind {
        ExitKind::TimedOut => Verdict::TimeLimitExceeded,
        ExitKind::Failed => Verdict::RuntimeError,
        ExitKind::Normal => if checker.spec_accepts(run.stdout@, expected) || (alt matches Some(
            a,
        ) && checker.spec_accepts(run.stdout@, a)) {
            Verdict::Success
        } else {
            Verdict::WrongAnswer
        },
    }
}

/// Judges one run of the solution: the caller runs the process and hands
/// over what it observed; the verdict is decided here, and the run's stdout
/// and elapsed time are kept. Spawn failures are the caller's concern and
/// never reach the judging.
pub fn simple_test(task: &Task, run: RawRun, expected: &[u8], alt: Option<&Vec<u8>>) -> (o: Outcome)
    ensures
        o.verdict == spec_judge(
            task.checker,
            run,
            expected@,
            match alt {
                Some(a) => Some(a@),
                None => None,
            },
        ),
        o.stdout@ == run.stdout@,
        o.time_millis == run.time_millis,
{
    let verdict = match run.kind {
        ExitKind::TimedOut => Verdict::TimeLimitExceeded,
        ExitKind::Failed => Verdict::RuntimeError,
        ExitKind::Normal => {
            let mut ok = task.checker.accepts(run.stdout.as_slice(), expected);
            if !ok {
                ok = match alt {
                    Some(a) => task.checker.accepts(run.stdout.as_slice(), a.as_slice()),
                    None => false,
                };
            }
            if ok {
                Verdict::Success
            } else {
                Verdict::WrongAnswer
            }
        },
    };
    Outcome { verdict, stdout: run.stdout, time_millis: run.time_millis }
}

} // verus!
