//! Core of an automated stress-testing engine for competitive programming:
//! it judges a candidate solution's output against a reference under a
//! comparison policy, discovers new failing inputs by repeatedly generating
//! candidates and keeping the highest-fitness failure, and runs stored test
//! batches in a deterministic order.
//!
//! All decision logic lives here and is verified. Process execution, file
//! access and UI plumbing are collaborators: callers run the child processes
//! and hand the observed results to this crate as plain values.

pub mod checker;
pub mod comms;
pub mod fitness;
pub mod manage;
pub mod outcome;
pub mod scan;
pub mod task;
pub mod worker;
