//! A small tool core that periodically re-runs a command, decides when to
//! clear the screen, what to print and log, how long to wait and when to stop.
//! The I/O itself (terminal, processes, files, signals) is left to the caller.
use vstd::prelude::*;

pub mod cli;
pub mod errors;
pub mod io;
pub mod laws;
pub mod runner;
pub mod signal;

verus! {

} // verus!
