use vstd::prelude::*;

use super::{command_line, append_decimal, decimal, CompilePlan, Compiler, HostEnv, IntoArgs, ToolCommand};
use crate::common::compiler::{opt_char, CompilationResult, OptLevel};
use crate::runtimes::native_runtime::{NativeAdditionalData, NativeRuntime};
use crate::runtimes::wasm_runtime::{WasmAdditionalData, WasmRuntime};

verus! {

/// Compiles Rust with `rustc`, for the native and the WASI runtime.
#[derive(Debug, Clone, Copy)]
pub struct RustCompiler;

/// Configuration for the Rust compiler.
#[derive(Debug, Clone)]
pub struct RustCompilerConfig {
    /// Passed as `-C opt-level=<level>`, and left out at level 0.
    pub opt_level: OptLevel,
    /// Passed as `-C codegen-units=<units>`.
    pub codegen_units: u32,
}

impl RustCompilerConfig {
    /// Full optimisation in one codegen unit.
    pub fn optimized() -> (r: Self)
        ensures
            r.opt_level is O3,
            r.codegen_units == 1,
    {
        RustCompilerConfig { opt_level: OptLevel::O3, codegen_units: 1 }
    }
}

impl Default for RustCompilerConfig {
    fn default() -> (r: Self)
        ensures
            r.opt_level is O0,
            r.codegen_units == 1,
    {
        RustCompilerConfig { opt_level: OptLevel::O0, codegen_units: 1 }
    }
}

/// The `rustc` arguments of a configuration.
pub open spec fn rust_args(config: RustCompilerConfig) -> Seq<Seq<char>> {
    let opt = if config.opt_level is O0 {
        Seq::empty()
    } else {
        seq!["-C"@, "opt-level="@ + opt_char(config.opt_level)]
    };
    opt + seq!["-C"@, "codegen-units="@ + decimal(config.codegen_units as nat)]
}

impl IntoArgs for RustCompilerConfig {
    open spec fn spec_args(self) -> Seq<Seq<char>> {
        rust_args(self)
    }

    fn into_args(self) -> (r: Vec<String>) {
        let mut args: Vec<String> = Vec::new();
        match self.opt_level {
            OptLevel::O0 => {},
            _ => {
                args.push(String::from_str("-C"));
                args.push(String::from_str("opt-level=").concat(self.opt_level.as_stanard_opt_char().as_str()));
            },
        }
        args.push(String::from_str("-C"));
        let mut units = String::from_str("codegen-units=");
        append_decimal(&mut units, self.codegen_units);
        args.push(units);
        proof {
            assert(args.deep_view() =~= rust_args(self));
        }
        args
    }
}

/// The `rustc` command line: the target arguments `args`, the source, the
/// configuration's arguments, and the output file.
pub open spec fn rustc_line(config: RustCompilerConfig, args: Seq<Seq<char>>, output: Seq<char>) -> Seq<Seq<char>> {
    seq!["rustc"@] + args + seq!["code.rs"@] + rust_args(config) + seq!["-o"@, output]
}

/// Target arguments for WASI.
pub open spec fn wasi_target_args() -> Seq<Seq<char>> {
    seq!["--target"@, "wasm32-wasi"@]
}

impl RustCompiler {
    /// The plan that runs `rustc` with the target arguments `args` on the
    /// source in `code.rs`, and leaves the executable in `output_name`.
    pub fn compile_with_args<D>(
        &self,
        config: RustCompilerConfig,
        args: Vec<String>,
        output_name: &str,
        additional_data: D,
    ) -> (r: CompilePlan<D>)
        ensures
            r.is(
                "exers-"@,
                "code.rs"@,
                seq!["rustc"@],
                seq![rustc_line(config, args.deep_view(), output_name@)],
                output_name@,
            ),
            r.additional_data == additional_data,
    {
        let mut cmd_args = args;
        cmd_args.push(String::from_str("code.rs"));
        let mut config_args = config.into_args();
        cmd_args.append(&mut config_args);
        cmd_args.push(String::from_str("-o"));
        cmd_args.push(String::from_str(output_name));
        let mut required: Vec<String> = Vec::new();
        required.push(String::from_str("rustc"));
        let mut steps: Vec<ToolCommand> = Vec::new();
        steps.push(ToolCommand { program: String::from_str("rustc"), args: cmd_args });
        let r = CompilePlan {
            dir_prefix: String::from_str("exers-"),
            source_file: String::from_str("code.rs"),
            required_programs: required,
            steps,
            executable: String::from_str(output_name),
            additional_data,
        };
        proof {
            assert(required.deep_view() =~= seq!["rustc"@]);
            assert(r.steps@[0].args.deep_view() =~= args.deep_view() + seq!["code.rs"@] + rust_args(config) + seq!["-o"@, output_name@]);
            assert(command_line(r.steps@[0]) =~= rustc_line(config, args.deep_view(), output_name@));
            assert(r.step_lines() =~= seq![rustc_line(config, args.deep_view(), output_name@)]);
        }
        r
    }
}

impl Compiler<NativeRuntime> for RustCompiler {
    type Config = RustCompilerConfig;

    open spec fn planned(
        &self,
        config: RustCompilerConfig,
        env: HostEnv,
        r: CompilationResult<CompilePlan<NativeAdditionalData>>,
    ) -> bool {
        &&& r is Ok
        &&& r->Ok_0.is(
            "exers-"@,
            "code.rs"@,
            seq!["rustc"@],
            seq![rustc_line(config, Seq::empty(), "executable"@)],
            "executable"@,
        )
        &&& r->Ok_0.additional_data.program is None
    }

    fn plan(&self, config: RustCompilerConfig, env: &HostEnv) -> (r: CompilationResult<CompilePlan<NativeAdditionalData>>) {
        let args: Vec<String> = Vec::new();
        proof {
            assert(args.deep_view() =~= Seq::empty());
        }
        Ok(self.compile_with_args(config, args, "executable", NativeAdditionalData::default()))
    }
}

impl Compiler<WasmRuntime> for RustCompiler {
    type Config = RustCompilerConfig;

    open spec fn planned(
        &self,
        config: RustCompilerConfig,
        env: HostEnv,
        r: CompilationResult<CompilePlan<WasmAdditionalData>>,
    ) -> bool {
        &&& r is Ok
        &&& r->Ok_0.is(
            "exers-"@,
            "code.rs"@,
            seq!["rustc"@],
            seq![rustc_line(config, wasi_target_args(), "executable.wasm"@)],
            "executable.wasm"@,
        )
        &&& r->Ok_0.additional_data.args@.len() == 0
        &&& r->Ok_0.additional_data.preopen_dir is None
    }

    fn plan(&self, config: RustCompilerConfig, env: &HostEnv) -> (r: CompilationResult<CompilePlan<WasmAdditionalData>>) {
        let mut args: Vec<String> = Vec::new();
        args.push(String::from_str("--target"));
        args.push(String::from_str("wasm32-wasi"));
        proof {
            assert(args.deep_view() =~= wasi_target_args());
        }
        Ok(self.compile_with_args(config, args, "executable.wasm", WasmAdditionalData::default()))
    }
}

} // verus!
