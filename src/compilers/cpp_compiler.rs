use vstd::prelude::*;

use super::{command_line, CompilePlan, Compiler, HostEnv, IntoArgs, ToolCommand};
use crate::common::compiler::{is_not_installed, opt_char, CompilationError, CompilationResult, OptLevel};
use crate::runtimes::native_runtime::{NativeAdditionalData, NativeRuntime};
use crate::runtimes::wasm_runtime::{WasmAdditionalData, WasmRuntime};

verus! {

/// Compiles C++ with `clang++`, for the native and the WASI runtime.
#[derive(Debug, Clone, Copy)]
pub struct CppCompiler;

/// Configuration for the C++ compiler.
#[derive(Debug, Clone)]
pub struct CppCompilerConfig {
    /// Passed as `-O<level>`, and left out at level 0.
    pub opt_level: OptLevel,
    /// Further flags, passed as they are.
    pub additional_flags: Vec<String>,
}

impl CppCompilerConfig {
    /// Full optimisation and no further flags.
    pub fn optimized() -> (r: Self)
        ensures
            r.opt_level is O3,
            r.additional_flags@.len() == 0,
    {
        CppCompilerConfig { opt_level: OptLevel::O3, additional_flags: Vec::new() }
    }
}

impl Default for CppCompilerConfig {
    fn default() -> (r: Self)
        ensures
            r.opt_level is O0,
            r.additional_flags@.len() == 0,
    {
        CppCompilerConfig { opt_level: OptLevel::O0, additional_flags: Vec::new() }
    }
}

/// The `clang++` arguments of a configuration.
pub open spec fn cpp_args(config: CppCompilerConfig) -> Seq<Seq<char>> {
    let opt = if config.opt_level is O0 {
        Seq::empty()
    } else {
        seq!["-O"@ + opt_char(config.opt_level)]
    };
    opt + config.additional_flags.deep_view()
}

impl IntoArgs for CppCompilerConfig {
    open spec fn spec_args(self) -> Seq<Seq<char>> {
        cpp_args(self)
    }

    fn into_args(self) -> (r: Vec<String>) {
        let mut args: Vec<String> = Vec::new();
        match self.opt_level {
            OptLevel::O0 => {},
            _ => {
                args.push(String::from_str("-O").concat(self.opt_level.as_stanard_opt_char().as_str()));
            },
        }
        let mut flags_v = self.additional_flags;
        args.append(&mut flags_v);
        proof {
            assert(args.deep_view() =~= cpp_args(self));
        }
        args
    }
}

/// The C++ command line: the compiler `command`, the target arguments
/// `args`, the source `source`, the configuration's arguments, and the output.
pub open spec fn cpp_line(
    command: Seq<char>,
    config: CppCompilerConfig,
    args: Seq<Seq<char>>,
    source: Seq<char>,
    output: Seq<char>,
) -> Seq<Seq<char>> {
    seq![command] + args + seq![source] + cpp_args(config) + seq!["-o"@, output]
}

/// Target arguments for WASI with the sysroot at `sysroot`.
pub open spec fn wasi_cpp_args(sysroot: Seq<char>) -> Seq<Seq<char>> {
    seq!["--target=wasm32-wasi"@, "--sysroot="@ + sysroot]
}

impl CppCompiler {
    /// The step that runs `command` with the target arguments `args` on
    /// `source` and writes `output_name`.
    pub fn command_for(
        &self,
        config: CppCompilerConfig,
        command: &str,
        args: Vec<String>,
        source: &str,
        output_name: &str,
    ) -> (r: ToolCommand)
        ensures
            command_line(r) == cpp_line(command@, config, args.deep_view(), source@, output_name@),
    {
        let mut cmd_args = args;
        cmd_args.push(String::from_str(source));
        let mut config_args = config.into_args();
        cmd_args.append(&mut config_args);
        cmd_args.push(String::from_str("-o"));
        cmd_args.push(String::from_str(output_name));
        let r = ToolCommand { program: String::from_str(command), args: cmd_args };
        proof {
            assert(command_line(r) =~= cpp_line(command@, config, args.deep_view(), source@, output_name@));
        }
        r
    }

    /// The plan that runs `command` with the target arguments `args` on the
    /// source in `code.cpp`, and leaves the executable in `output_name`.
    pub fn compile_with_args<D>(
        &self,
        config: CppCompilerConfig,
        command: &str,
        args: Vec<String>,
        output_name: &str,
        additional_data: D,
    ) -> (r: CompilePlan<D>)
        ensures
            r.is(
                "exerscpp-"@,
                "code.cpp"@,
                seq![command@],
                seq![cpp_line(command@, config, args.deep_view(), "code.cpp"@, output_name@)],
                output_name@,
            ),
            r.additional_data == additional_data,
    {
        let step = self.command_for(config, command, args, "code.cpp", output_name);
        let mut required: Vec<String> = Vec::new();
        required.push(String::from_str(command));
        let mut steps: Vec<ToolCommand> = Vec::new();
        steps.push(step);
        let r = CompilePlan {
            dir_prefix: String::from_str("exerscpp-"),
            source_file: String::from_str("code.cpp"),
            required_programs: required,
            steps,
            executable: String::from_str(output_name),
            additional_data,
        };
        proof {
            assert(required.deep_view() =~= seq![command@]);
            assert(r.step_lines() =~= seq![cpp_line(command@, config, args.deep_view(), "code.cpp"@, output_name@)]);
        }
        r
    }
}

impl Compiler<NativeRuntime> for CppCompiler {
    type Config = CppCompilerConfig;

    open spec fn planned(
        &self,
        config: CppCompilerConfig,
        env: HostEnv,
        r: CompilationResult<CompilePlan<NativeAdditionalData>>,
    ) -> bool {
        &&& r is Ok
        &&& r->Ok_0.is(
            "exerscpp-"@,
            "code.cpp"@,
            seq!["clang++"@],
            seq![cpp_line("clang++"@, config, Seq::empty(), "code.cpp"@, "executable"@)],
            "executable"@,
        )
        &&& r->Ok_0.additional_data.program is None
    }

    fn plan(&self, config: CppCompilerConfig, env: &HostEnv) -> (r: CompilationResult<CompilePlan<NativeAdditionalData>>) {
        let args: Vec<String> = Vec::new();
        proof {
            assert(args.deep_view() =~= Seq::empty());
        }
        Ok(self.compile_with_args(config, "clang++", args, "executable", NativeAdditionalData::default()))
    }
}

impl Compiler<WasmRuntime> for CppCompiler {
    type Config = CppCompilerConfig;

    /// Without a WASI sysroot the plan fails, naming `WASI_SYSROOT`.
    open spec fn planned(
        &self,
        config: CppCompilerConfig,
        env: HostEnv,
        r: CompilationResult<CompilePlan<WasmAdditionalData>>,
    ) -> bool {
        match env.wasi_sysroot {
            None => r is Err && is_not_installed(r->Err_0, "WASI_SYSROOT"@),
            Some(sysroot) => {
                &&& r is Ok
                &&& r->Ok_0.is(
                    "exerscpp-"@,
                    "code.cpp"@,
                    seq!["clang++"@],
                    seq![cpp_line("clang++"@, config, wasi_cpp_args(sysroot@), "code.cpp"@, "executable.wasm"@)],
                    "executable.wasm"@,
                )
                &&& r->Ok_0.additional_data.args@.len() == 0
                &&& r->Ok_0.additional_data.preopen_dir is None
            },
        }
    }

    fn plan(&self, config: CppCompilerConfig, env: &HostEnv) -> (r: CompilationResult<CompilePlan<WasmAdditionalData>>) {
        match &env.wasi_sysroot {
            None => Err(CompilationError::ProgramNotInstalled(String::from_str("WASI_SYSROOT"))),
            Some(sysroot) => {
                let mut args: Vec<String> = Vec::new();
                args.push(String::from_str("--target=wasm32-wasi"));
                args.push(String::from_str("--sysroot=").concat(sysroot.as_str()));
                proof {
                    assert(args.deep_view() =~= wasi_cpp_args(sysroot@));
                }
                Ok(self.compile_with_args(config, "clang++", args, "executable.wasm", WasmAdditionalData::default()))
            },
        }
    }
}

} // verus!
