//! A fan-out/join runner, stripped to the decisions it makes.
//!
//! A run launches a fixed number of workers, each of which echoes its own
//! index, waits for them in launch order, and sorts every outcome into one of
//! two classes: the outcome is the target value, or it is anything else
//! (another value, or a worker that ended abnormally).
//!
//! The library holds those decisions and proves them. Starting threads and
//! waiting for them is left to the caller, who is told what to do next by a
//! [`runner::Runner`] and reports back what happened.

pub mod laws;
pub mod lines;
pub mod outcome;
pub mod runner;
