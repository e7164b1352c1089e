//! A single-worker command relay: many callers submit command text, one worker
//! runs the commands one at a time against a long-lived evaluator, and a
//! per-execution deadline guard interrupts an execution that runs too long.
//!
//! The library holds the decisions of that protocol as verified state
//! machines and text functions; threads, channels and the evaluator itself
//! live with the program that drives them.

pub mod outcome;
pub mod guard;
pub mod worker;
pub mod service;
pub mod relay;
pub mod pattern;
pub mod dispatch;
