use vstd::prelude::*;

use super::cpp_compiler::{cpp_line, CppCompiler, CppCompilerConfig};
use super::{command_line, CompilePlan, Compiler, HostEnv, IntoArgs, ToolCommand};
use crate::common::compiler::CompilationResult;
use crate::runtimes::native_runtime::{NativeAdditionalData, NativeRuntime};

verus! {

/// Prepares Python for the native runtime: the source is run by the
/// interpreter, or, with Cython, turned into C++ and compiled.
#[derive(Debug, Clone, Copy)]
pub struct PythonCompiler;

/// Configuration for the Python compiler.
#[derive(Debug, Clone)]
pub struct PythonCompilerConfig {
    /// Interpreter that runs the script.
    pub python_version: String,
    /// Turn the script into C++ with Cython and compile that.
    pub use_cython: bool,
    /// Configuration of the C++ compilation under Cython.
    pub cpp_config: CppCompilerConfig,
}

impl Default for PythonCompilerConfig {
    fn default() -> (r: Self)
        ensures
            r.python_version@ == "python3"@,
            !r.use_cython,
            r.cpp_config.opt_level is O0,
            r.cpp_config.additional_flags@.len() == 0,
    {
        PythonCompilerConfig {
            python_version: String::from_str("python3"),
            use_cython: false,
            cpp_config: CppCompilerConfig::default(),
        }
    }
}

impl PythonCompilerConfig {
    /// The default configuration with Cython switched on.
    pub fn cython_default() -> (r: Self)
        ensures
            r.python_version@ == "python3"@,
            r.use_cython,
            r.cpp_config.opt_level is O0,
            r.cpp_config.additional_flags@.len() == 0,
    {
        PythonCompilerConfig {
            python_version: String::from_str("python3"),
            use_cython: true,
            cpp_config: CppCompilerConfig::default(),
        }
    }
}

impl IntoArgs for PythonCompilerConfig {
    /// `-m cython` under Cython, and nothing otherwise.
    open spec fn spec_args(self) -> Seq<Seq<char>> {
        if self.use_cython {
            seq!["-m"@, "cython"@]
        } else {
            Seq::empty()
        }
    }

    fn into_args(self) -> (r: Vec<String>) {
        let mut args: Vec<String> = Vec::new();
        if self.use_cython {
            args.push(String::from_str("-m"));
            args.push(String::from_str("cython"));
        }
        proof {
            assert(args.deep_view() =~= self.spec_args());
        }
        args
    }
}

/// The Cython command line that turns `code.py` into `code.cpp`.
pub open spec fn cython_line() -> Seq<Seq<char>> {
    seq!["cython"@, "code.py"@, "-3"@, "--cplus"@, "--embed"@, "-o"@, "code.cpp"@]
}

impl Compiler<NativeRuntime> for PythonCompiler {
    type Config = PythonCompilerConfig;

    open spec fn planned(
        &self,
        config: PythonCompilerConfig,
        env: HostEnv,
        r: CompilationResult<CompilePlan<NativeAdditionalData>>,
    ) -> bool {
        &&& r is Ok
        &&& if config.use_cython {
            &&& r->Ok_0.is(
                "exers-"@,
                "code.py"@,
                seq!["cython"@, "clang++"@],
                seq![
                    cython_line(),
                    cpp_line("clang++"@, config.cpp_config, Seq::empty(), "code.cpp"@, "executable"@),
                ],
                "executable"@,
            )
            &&& r->Ok_0.additional_data.program is None
        } else {
            &&& r->Ok_0.is(
                "exers-"@,
                "code.py"@,
                seq![config.python_version@],
                Seq::empty(),
                "code.py"@,
            )
            &&& r->Ok_0.additional_data.program matches Some(p) && p@ == config.python_version@
        }
    }

    fn plan(&self, config: PythonCompilerConfig, env: &HostEnv) -> (r: CompilationResult<CompilePlan<NativeAdditionalData>>) {
        let mut required: Vec<String> = Vec::new();
        let mut steps: Vec<ToolCommand> = Vec::new();
        if config.use_cython {
            required.push(String::from_str("cython"));
            required.push(String::from_str("clang++"));
            let mut cython_args: Vec<String> = Vec::new();
            cython_args.push(String::from_str("code.py"));
            cython_args.push(String::from_str("-3"));
            cython_args.push(String::from_str("--cplus"));
            cython_args.push(String::from_str("--embed"));
            cython_args.push(String::from_str("-o"));
            cython_args.push(String::from_str("code.cpp"));
            let cython = ToolCommand { program: String::from_str("cython"), args: cython_args };
            let no_args: Vec<String> = Vec::new();
            proof {
                assert(no_args.deep_view() =~= Seq::empty());
                assert(command_line(cython) =~= cython_line());
            }
            let compile = CppCompiler.command_for(config.cpp_config, "clang++", no_args, "code.cpp", "executable");
            steps.push(cython);
            steps.push(compile);
            let r = CompilePlan {
                dir_prefix: String::from_str("exers-"),
                source_file: String::from_str("code.py"),
                required_programs: required,
                steps,
                executable: String::from_str("executable"),
                additional_data: NativeAdditionalData { program: None },
            };
            proof {
                assert(required.deep_view() =~= seq!["cython"@, "clang++"@]);
                assert(r.step_lines() =~= seq![
                    cython_line(),
                    cpp_line("clang++"@, config.cpp_config, Seq::empty(), "code.cpp"@, "executable"@),
                ]);
            }
            Ok(r)
        } else {
            required.push(config.python_version.clone());
            let r = CompilePlan {
                dir_prefix: String::from_str("exers-"),
                source_file: String::from_str("code.py"),
                required_programs: required,
                steps,
                executable: String::from_str("code.py"),
                additional_data: NativeAdditionalData { program: Some(config.python_version) },
            };
            proof {
                assert(required.deep_view() =~= seq![config.python_version@]);
                assert(r.step_lines() =~= Seq::empty());
            }
            Ok(r)
        }
    }
}

} // verus!
