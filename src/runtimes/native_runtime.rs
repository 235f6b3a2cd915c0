use std::time::Duration;
use vstd::prelude::*;

use super::{report_stream, reported, CodeRuntime, ExecutionResult};
use crate::common::runtime::{feed_of, InputData, StdinFeed};

verus! {

/// Runs the executable as a child process of the host.
#[derive(Debug, Clone, Copy)]
pub struct NativeRuntime;

/// Configuration for the native runtime.
#[derive(Debug, Clone)]
pub struct NativeConfig {
    /// Standard input of the program.
    pub stdin: InputData,
}

impl Default for NativeConfig {
    fn default() -> (r: Self)
        ensures
            r.stdin is Ignore,
    {
        NativeConfig { stdin: InputData::Ignore }
    }
}

/// Data that a compiler passes to the native runtime.
#[derive(Debug, Clone)]
pub struct NativeAdditionalData {
    /// Interpreter that runs the executable, which is then a script; `None`
    /// runs the executable itself.
    pub program: Option<String>,
}

impl Default for NativeAdditionalData {
    fn default() -> (r: Self)
        ensures
            r.program is None,
    {
        NativeAdditionalData { program: None }
    }
}

impl CodeRuntime for NativeRuntime {
    type Config = NativeConfig;
    type AdditionalData = NativeAdditionalData;
}

/// The command line that runs `executable`: the interpreter followed by the
/// script, or the executable alone.
pub open spec fn native_argv(data: NativeAdditionalData, executable: Seq<char>) -> Seq<Seq<char>> {
    match data.program {
        Some(p) => seq![p@, executable],
        None => seq![executable],
    }
}

impl NativeRuntime {
    /// The command line of the child process; its first entry is the
    /// program to start.
    pub fn command(&self, data: &NativeAdditionalData, executable: &str) -> (r: Vec<String>)
        ensures
            r.deep_view() == native_argv(*data, executable@),
    {
        let mut argv: Vec<String> = Vec::new();
        match &data.program {
            Some(p) => {
                argv.push(p.clone());
            },
            None => {},
        }
        argv.push(String::from_str(executable));
        proof {
            assert(argv.deep_view() =~= native_argv(*data, executable@));
        }
        argv
    }

    /// What is written to the child's stdin: a text exactly as given, with
    /// no newline added.
    pub fn stdin_feed(&self, config: NativeConfig) -> (r: StdinFeed)
        ensures
            feed_of(config.stdin, Seq::empty(), r),
    {
        config.stdin.verbatim_feed()
    }

    /// The result of a child that wrote `stdout` and `stderr`, ended with
    /// `status` (`None` when the host reports no code), and ran for
    /// `time_taken`.
    pub fn result(&self, stdout: String, stderr: String, status: Option<i32>, time_taken: Duration) -> (r: ExecutionResult)
        ensures
            reported(stdout@, r.stdout),
            reported(stderr@, r.stderr),
            r.exit_code == match status {
                Some(c) => c,
                None => 0i32,
            },
            r.time_taken == time_taken,
    {
        let exit_code = match status {
            Some(c) => c,
            None => 0,
        };
        ExecutionResult {
            stdout: report_stream(stdout),
            stderr: report_stream(stderr),
            time_taken,
            exit_code,
        }
    }
}

} // verus!
