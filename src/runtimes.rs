//! Runtimes: the commands, limits and results of running compiled code.
use std::time::Duration;
use vstd::prelude::*;

pub mod jailed_runtime;
pub mod native_runtime;
pub mod wasm_runtime;

verus! {

/// Relies on `Duration::clone`: `Duration` is `Copy`, so the clone is the same value.
pub assume_specification[ <Duration as Clone>::clone ](d: &Duration) -> (r: Duration)
    ensures
        r == *d,
;

/// An environment that runs compiled code. Each runtime has a configuration
/// and the side data that compilers hand it with an artifact; both have
/// defaults.
pub trait CodeRuntime: Send + Sync + Sized {
    /// Configuration for the runtime.
    type Config: Send + Sync + Sized + Clone + Default;
    /// Data that a compiler passes to the runtime beside the executable.
    type AdditionalData: Send + Sync + Sized + Clone + Default;
}

/// The outcome of one run.
#[derive(Debug, Clone)]
pub struct ExecutionResult {
    /// What the program wrote to stdout, if anything.
    pub stdout: Option<String>,
    /// What the program wrote to stderr, if anything.
    pub stderr: Option<String>,
    /// Wall-clock time of the run alone, without compilation.
    pub time_taken: Duration,
    /// Exit code of the program; 0 when the host reports none.
    pub exit_code: i32,
}

/// A captured stream as a result reports it: absent when empty.
pub open spec fn reported(captured: Seq<char>, field: Option<String>) -> bool {
    if captured.len() == 0 {
        field is None
    } else {
        field matches Some(s) && s@ == captured
    }
}

/// Reports a captured stream: `None` when nothing was written.
pub fn report_stream(captured: String) -> (r: Option<String>)
    ensures
        reported(captured@, r),
{
    if captured.as_str().is_empty() {
        None
    } else {
        Some(captured)
    }
}

} // verus!
