use std::path::PathBuf;
use std::time::Duration;
use vstd::prelude::*;

use super::{CodeRuntime, ExecutionResult};
use crate::common::runtime::{feed_of, InputData, MemoryLimit, StdinFeed};

verus! {

/// Runs a WASI module inside an embedded virtual machine, with optional
/// instruction metering and memory cap.
#[derive(Debug, Clone, Copy, Default)]
pub struct WasmRuntime;

/// The backend that compiles the module to machine code.
#[derive(Debug, Clone, Copy, PartialEq, Eq, Structural)]
pub enum WasmCompiler {
    /// Cranelift: compiles fast.
    Cranelift,
}

impl Default for WasmCompiler {
    fn default() -> (r: Self)
        ensures
            r == WasmCompiler::Cranelift,
    {
        WasmCompiler::Cranelift
    }
}

/// Configuration for the WASI runtime.
#[derive(Debug, Clone)]
pub struct WasmConfig {
    /// Instruction budget of the module; 0 disables metering.
    pub gas: usize,
    /// Cap on linear memory in pages of 64 KiB; 0 disables the cap.
    pub memory_limit: usize,
    /// Standard input of the program.
    pub stdin: InputData,
    /// Backend that compiles the module.
    pub compiler: WasmCompiler,
}

impl Default for WasmConfig {
    fn default() -> (r: Self)
        ensures
            r.gas == 0,
            r.memory_limit == 0,
            r.stdin is Ignore,
            r.compiler == WasmCompiler::Cranelift,
    {
        WasmConfig { gas: 0, memory_limit: 0, stdin: InputData::Ignore, compiler: WasmCompiler::Cranelift }
    }
}

/// Data that a compiler passes to the WASI runtime.
#[derive(Debug, Clone)]
pub struct WasmAdditionalData {
    /// Arguments passed to the program after its name.
    pub args: Vec<String>,
    /// Host directory that the program sees as `/sandbox`; nothing else of
    /// the host file system is reachable.
    pub preopen_dir: Option<PathBuf>,
}

impl Default for WasmAdditionalData {
    fn default() -> (r: Self)
        ensures
            r.args@.len() == 0,
            r.preopen_dir is None,
    {
        WasmAdditionalData { args: Vec::new(), preopen_dir: None }
    }
}

impl CodeRuntime for WasmRuntime {
    type Config = WasmConfig;
    type AdditionalData = WasmAdditionalData;
}

/// How one module is set up and run.
#[derive(Debug)]
pub struct WasmPlan {
    /// Backend that compiles the module.
    pub compiler: WasmCompiler,
    /// Instruction budget that metering enforces, if metered.
    pub metering: Option<u64>,
    /// Cap on linear memory, if any.
    pub memory: Option<MemoryLimit>,
    /// Name the program sees as its first argument.
    pub program_name: String,
    /// Arguments after the program name.
    pub args: Vec<String>,
    /// Host directory mounted as `mount_point`, if any.
    pub sandbox_dir: Option<PathBuf>,
    /// Path under which the program sees `sandbox_dir`.
    pub mount_point: String,
    /// What is written to the program's stdin before it starts.
    pub stdin: StdinFeed,
}

/// The plan is the one that `config` and `data` call for.
pub open spec fn plans(config: WasmConfig, data: WasmAdditionalData, plan: WasmPlan) -> bool {
    &&& plan.compiler == config.compiler
    &&& plan.metering == if config.gas == 0 {
        None::<u64>
    } else {
        Some(config.gas as u64)
    }
    &&& plan.memory == if config.memory_limit == 0 {
        None::<MemoryLimit>
    } else {
        Some(MemoryLimit { limit: if config.memory_limit > u32::MAX as usize { u32::MAX } else { config.memory_limit as u32 } })
    }
    &&& plan.program_name@ == "wasi_program"@
    &&& plan.args == data.args
    &&& plan.sandbox_dir == data.preopen_dir
    &&& plan.mount_point@ == "/sandbox"@
    &&& feed_of(config.stdin, "\n"@, plan.stdin)
}

impl WasmRuntime {
    /// Decides how a module is run: metering when `gas` is not zero, a
    /// memory cap when `memory_limit` is not zero (at most `u32::MAX` pages),
    /// the program's arguments and sandbox directory from `data`, and stdin,
    /// where a text is followed by a newline.
    pub fn plan(&self, config: WasmConfig, data: WasmAdditionalData) -> (r: WasmPlan)
        ensures
            plans(config, data, r),
    {
        let metering = if config.gas == 0 {
            None
        } else {
            Some(config.gas as u64)
        };
        let memory = if config.memory_limit == 0 {
            None
        } else {
            let pages: u32 = if config.memory_limit > u32::MAX as usize {
                u32::MAX
            } else {
                config.memory_limit as u32
            };
            Some(MemoryLimit::new(pages))
        };
        WasmPlan {
            compiler: config.compiler,
            metering,
            memory,
            program_name: String::from_str("wasi_program"),
            args: data.args,
            sandbox_dir: data.preopen_dir,
            mount_point: String::from_str("/sandbox"),
            stdin: config.stdin.line_feed(),
        }
    }

    /// The result of a module that wrote `stdout` and `stderr` while its
    /// start function ran for `time_taken`. Both streams are reported, empty
    /// or not, and the exit code is 0.
    pub fn result(&self, stdout: String, stderr: String, time_taken: Duration) -> (r: ExecutionResult)
        ensures
            r.stdout matches Some(s) && s@ == stdout@,
            r.stderr matches Some(s) && s@ == stderr@,
            r.time_taken == time_taken,
            r.exit_code == 0,
    {
        ExecutionResult { stdout: Some(stdout), stderr: Some(stderr), time_taken, exit_code: 0 }
    }
}

/// A module is metered exactly when the configured gas is not zero, and
/// then with the whole configured budget.
pub proof fn lemma_metering_follows_gas(config: WasmConfig, data: WasmAdditionalData, plan: WasmPlan)
    requires
        plans(config, data, plan),
    ensures
        plan.metering is Some <==> config.gas != 0,
        plan.metering is Some ==> plan.metering->0 == config.gas,
{
}

/// Without a directory to preopen, no host directory is reachable from the
/// module: nothing is mounted.
pub proof fn lemma_no_sandbox_without_preopen(config: WasmConfig, data: WasmAdditionalData, plan: WasmPlan)
    requires
        plans(config, data, plan),
        data.preopen_dir is None,
    ensures
        plan.sandbox_dir is None,
{
}

} // verus!
