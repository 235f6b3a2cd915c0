use vstd::prelude::*;

use super::{command_line, CompilePlan, Compiler, HostEnv, IntoArgs, ToolCommand};
use crate::common::compiler::{is_not_installed, CompilationError, CompilationResult};
use crate::runtimes::native_runtime::{NativeAdditionalData, NativeRuntime};
use crate::runtimes::wasm_runtime::{WasmAdditionalData, WasmRuntime};

verus! {

/// Prepares JavaScript: run by `node` natively, or compiled to a WASI module
/// by `javy`. Under WASI, `console.log` writes to stderr rather than stdout,
/// a limitation of `javy`.
#[derive(Debug, Clone, Copy)]
pub struct JsCompiler;

/// Configuration for the JavaScript compiler, which has no options.
#[derive(Debug, Clone, Copy, Default)]
pub struct JsCompilerConfig;

impl IntoArgs for JsCompilerConfig {
    open spec fn spec_args(self) -> Seq<Seq<char>> {
        Seq::empty()
    }

    fn into_args(self) -> (r: Vec<String>) {
        Vec::new()
    }
}

/// The `javy` command line, where `javy_dir` holds the tool.
pub open spec fn javy_line(javy_dir: Seq<char>) -> Seq<Seq<char>> {
    seq![javy_dir + "/javy"@, "compile"@, "-o"@, "code.wasm"@, "code.js"@]
}

impl Compiler<NativeRuntime> for JsCompiler {
    type Config = JsCompilerConfig;

    open spec fn planned(&self, config: JsCompilerConfig, env: HostEnv, r: CompilationResult<CompilePlan<NativeAdditionalData>>) -> bool {
        &&& r is Ok
        &&& r->Ok_0.is("exers-"@, "code.js"@, seq!["node"@], Seq::empty(), "code.js"@)
        &&& r->Ok_0.additional_data.program matches Some(p) && p@ == "node"@
    }

    fn plan(&self, config: JsCompilerConfig, env: &HostEnv) -> (r: CompilationResult<CompilePlan<NativeAdditionalData>>) {
        let mut required: Vec<String> = Vec::new();
        required.push(String::from_str("node"));
        let steps: Vec<ToolCommand> = Vec::new();
        let r = CompilePlan {
            dir_prefix: String::from_str("exers-"),
            source_file: String::from_str("code.js"),
            required_programs: required,
            steps,
            executable: String::from_str("code.js"),
            additional_data: NativeAdditionalData { program: Some(String::from_str("node")) },
        };
        proof {
            assert(required.deep_view() =~= seq!["node"@]);
            assert(r.step_lines() =~= Seq::empty());
        }
        Ok(r)
    }
}

impl Compiler<WasmRuntime> for JsCompiler {
    type Config = JsCompilerConfig;

    /// Without `JAVY_PATH` the plan fails, naming it.
    open spec fn planned(&self, config: JsCompilerConfig, env: HostEnv, r: CompilationResult<CompilePlan<WasmAdditionalData>>) -> bool {
        match env.javy_path {
            None => r is Err && is_not_installed(r->Err_0, "JAVY_PATH"@),
            Some(dir) => {
                &&& r is Ok
                &&& r->Ok_0.is("exers-"@, "code.js"@, Seq::empty(), seq![javy_line(dir@)], "code.wasm"@)
                &&& r->Ok_0.additional_data.args@.len() == 0
                &&& r->Ok_0.additional_data.preopen_dir is None
            },
        }
    }

    fn plan(&self, config: JsCompilerConfig, env: &HostEnv) -> (r: CompilationResult<CompilePlan<WasmAdditionalData>>) {
        match &env.javy_path {
            None => Err(CompilationError::ProgramNotInstalled(String::from_str("JAVY_PATH"))),
            Some(dir) => {
                let required: Vec<String> = Vec::new();
                let mut args: Vec<String> = Vec::new();
                args.push(String::from_str("compile"));
                args.push(String::from_str("-o"));
                args.push(String::from_str("code.wasm"));
                args.push(String::from_str("code.js"));
                let javy = ToolCommand { program: dir.clone().concat("/javy"), args };
                let mut steps: Vec<ToolCommand> = Vec::new();
                steps.push(javy);
                let r = CompilePlan {
                    dir_prefix: String::from_str("exers-"),
                    source_file: String::from_str("code.js"),
                    required_programs: required,
                    steps,
                    executable: String::from_str("code.wasm"),
                    additional_data: WasmAdditionalData::default(),
                };
                proof {
                    assert(required.deep_view() =~= Seq::empty());
                    assert(command_line(javy) =~= javy_line(dir@));
                    assert(r.step_lines() =~= seq![javy_line(dir@)]);
                }
                Ok(r)
            },
        }
    }
}

} // verus!
