//! Fitness scoring of candidate inputs: a scalar "interestingness" used
//! only to rank failing inputs so the most valuable one is kept. It never
//! affects pass/fail.

use vstd::prelude::*;

verus! {

/// A policy that scores a candidate input; higher scores are kept.
#[derive(Clone, Copy, Debug, PartialEq, Eq, Structural)]
pub enum FitnessEvaluator {
    /// The default policy: an input's score is its length in bytes.
    ByteLength,
}

impl FitnessEvaluator {
    /// The score owed to an input under this policy.
    pub open spec fn spec_evaluate(self, input: Seq<u8>) -> nat {
        match self {
            FitnessEvaluator::ByteLength => input.len(),
        }
    }

    /// Scores a candidate input.
    pub fn evaluate(&self, input: &[u8]) -> (score: usize)
        ensures
            score == self.spec_evaluate(input@),
    {
        match self {
            FitnessEvaluator::ByteLength => input.len(),
        }
    }
}

} // verus!
