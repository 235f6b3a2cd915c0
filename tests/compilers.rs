use exers::common::compiler::{
    check_program_installed, compile_outcome, installed_result, CompilationError, OptLevel,
};
use exers::compilers::cpp_compiler::{CppCompiler, CppCompilerConfig};
use exers::compilers::js_compiler::{JsCompiler, JsCompilerConfig};
use exers::compilers::python_compiler::{PythonCompiler, PythonCompilerConfig};
use exers::compilers::rust_compiler::{RustCompiler, RustCompilerConfig};
use exers::compilers::{append_decimal, tools_outcome, CompilePlan, Compiler, HostEnv, IntoArgs};
use exers::runtimes::jailed_runtime::JailedRuntime;
use exers::runtimes::native_runtime::{NativeAdditionalData, NativeRuntime};
use exers::runtimes::wasm_runtime::{WasmAdditionalData, WasmRuntime};

fn no_env() -> HostEnv {
    HostEnv { wasi_sysroot: None, javy_path: None }
}

fn line<D>(plan: &CompilePlan<D>, i: usize) -> Vec<String> {
    let mut v = vec![plan.steps[i].program.clone()];
    v.extend(plan.steps[i].args.iter().cloned());
    v
}

#[test]
fn opt_levels_render_as_characters() {
    assert_eq!(OptLevel::O0.as_stanard_opt_char(), "0");
    assert_eq!(OptLevel::Speed.as_stanard_opt_char(), "fast");
    assert_eq!(OptLevel::Size.as_stanard_opt_char(), "z");
    assert_eq!(OptLevel::O1.as_stanard_opt_char(), "1");
    assert_eq!(OptLevel::O2.as_stanard_opt_char(), "2");
    assert_eq!(OptLevel::O3.as_stanard_opt_char(), "3");
    assert_eq!(OptLevel::Custom("s".to_string()).as_stanard_opt_char(), "s");
}

#[test]
fn decimal_rendering() {
    let mut s = String::from("n=");
    append_decimal(&mut s, 0);
    assert_eq!(s, "n=0");
    let mut s = String::new();
    append_decimal(&mut s, 1907);
    assert_eq!(s, "1907");
    let mut s = String::new();
    append_decimal(&mut s, u32::MAX);
    assert_eq!(s, "4294967295");
}

#[test]
fn rust_args_leave_out_level_zero() {
    assert_eq!(RustCompilerConfig::default().into_args(), vec!["-C", "codegen-units=1"]);
    assert_eq!(
        RustCompilerConfig::optimized().into_args(),
        vec!["-C", "opt-level=3", "-C", "codegen-units=1"]
    );
    let c = RustCompilerConfig { opt_level: OptLevel::Size, codegen_units: 16 };
    assert_eq!(c.into_args(), vec!["-C", "opt-level=z", "-C", "codegen-units=16"]);
}

#[test]
fn cpp_args_leave_out_level_zero() {
    assert!(CppCompilerConfig::default().into_args().is_empty());
    assert_eq!(CppCompilerConfig::optimized().into_args(), vec!["-O3"]);
    let c = CppCompilerConfig {
        opt_level: OptLevel::Speed,
        additional_flags: vec!["-std=c++17".to_string(), "-Wall".to_string()],
    };
    assert_eq!(c.into_args(), vec!["-Ofast", "-std=c++17", "-Wall"]);
}

#[test]
fn python_args() {
    assert!(PythonCompilerConfig::default().into_args().is_empty());
    assert_eq!(PythonCompilerConfig::cython_default().into_args(), vec!["-m", "cython"]);
    assert!(JsCompilerConfig.into_args().is_empty());
}

#[test]
fn rust_native_plan() {
    let plan: CompilePlan<NativeAdditionalData> =
        <RustCompiler as Compiler<NativeRuntime>>::plan(&RustCompiler, Default::default(), &no_env()).unwrap();
    assert_eq!(plan.dir_prefix, "exers-");
    assert_eq!(plan.source_file, "code.rs");
    assert_eq!(plan.required_programs, vec!["rustc"]);
    assert_eq!(plan.steps.len(), 1);
    assert_eq!(line(&plan, 0), vec!["rustc", "code.rs", "-C", "codegen-units=1", "-o", "executable"]);
    assert_eq!(plan.executable, "executable");
    assert_eq!(plan.additional_data.program, None);
}

#[test]
fn rust_wasm_plan() {
    let plan: CompilePlan<WasmAdditionalData> =
        <RustCompiler as Compiler<WasmRuntime>>::plan(&RustCompiler, RustCompilerConfig::optimized(), &no_env())
            .unwrap();
    assert_eq!(
        line(&plan, 0),
        vec![
            "rustc", "--target", "wasm32-wasi", "code.rs", "-C", "opt-level=3", "-C", "codegen-units=1", "-o",
            "executable.wasm"
        ]
    );
    assert_eq!(plan.executable, "executable.wasm");
    assert!(plan.additional_data.args.is_empty());
    assert!(plan.additional_data.preopen_dir.is_none());
}

#[test]
fn cpp_plans() {
    let plan = <CppCompiler as Compiler<NativeRuntime>>::plan(&CppCompiler, CppCompilerConfig::optimized(), &no_env())
        .unwrap();
    assert_eq!(plan.dir_prefix, "exerscpp-");
    assert_eq!(plan.required_programs, vec!["clang++"]);
    assert_eq!(line(&plan, 0), vec!["clang++", "code.cpp", "-O3", "-o", "executable"]);

    let env = HostEnv { wasi_sysroot: Some("/opt/wasi".to_string()), javy_path: None };
    let plan = <CppCompiler as Compiler<WasmRuntime>>::plan(&CppCompiler, Default::default(), &env).unwrap();
    assert_eq!(
        line(&plan, 0),
        vec!["clang++", "--target=wasm32-wasi", "--sysroot=/opt/wasi", "code.cpp", "-o", "executable.wasm"]
    );
}

#[test]
fn cpp_wasm_needs_sysroot() {
    match <CppCompiler as Compiler<WasmRuntime>>::plan(&CppCompiler, Default::default(), &no_env()) {
        Err(CompilationError::ProgramNotInstalled(p)) => assert_eq!(p, "WASI_SYSROOT"),
        other => panic!("unexpected {:?}", other.map(|p| p.executable)),
    }
}

#[test]
fn python_plans() {
    let plan = <PythonCompiler as Compiler<NativeRuntime>>::plan(&PythonCompiler, Default::default(), &no_env())
        .unwrap();
    assert_eq!(plan.source_file, "code.py");
    assert_eq!(plan.executable, "code.py");
    assert!(plan.steps.is_empty());
    assert_eq!(plan.required_programs, vec!["python3"]);
    assert_eq!(plan.additional_data.program, Some("python3".to_string()));

    let plan = <PythonCompiler as Compiler<NativeRuntime>>::plan(
        &PythonCompiler,
        PythonCompilerConfig::cython_default(),
        &no_env(),
    )
    .unwrap();
    assert_eq!(plan.required_programs, vec!["cython", "clang++"]);
    assert_eq!(line(&plan, 0), vec!["cython", "code.py", "-3", "--cplus", "--embed", "-o", "code.cpp"]);
    assert_eq!(line(&plan, 1), vec!["clang++", "code.cpp", "-o", "executable"]);
    assert_eq!(plan.executable, "executable");
    assert_eq!(plan.additional_data.program, None);
}

#[test]
fn js_plans() {
    let plan = <JsCompiler as Compiler<NativeRuntime>>::plan(&JsCompiler, JsCompilerConfig, &no_env()).unwrap();
    assert_eq!(plan.source_file, "code.js");
    assert_eq!(plan.executable, "code.js");
    assert_eq!(plan.required_programs, vec!["node"]);
    assert_eq!(plan.additional_data.program, Some("node".to_string()));

    let env = HostEnv { wasi_sysroot: None, javy_path: Some("/opt/javy".to_string()) };
    let plan = <JsCompiler as Compiler<WasmRuntime>>::plan(&JsCompiler, JsCompilerConfig, &env).unwrap();
    assert_eq!(line(&plan, 0), vec!["/opt/javy/javy", "compile", "-o", "code.wasm", "code.js"]);
    assert_eq!(plan.executable, "code.wasm");

    match <JsCompiler as Compiler<WasmRuntime>>::plan(&JsCompiler, JsCompilerConfig, &no_env()) {
        Err(CompilationError::ProgramNotInstalled(p)) => assert_eq!(p, "JAVY_PATH"),
        _ => panic!("expected a missing JAVY_PATH"),
    }
}

#[test]
fn jailed_plans_follow_native() {
    let native = <RustCompiler as Compiler<NativeRuntime>>::plan(&RustCompiler, Default::default(), &no_env()).unwrap();
    let jailed = <RustCompiler as Compiler<JailedRuntime>>::plan(&RustCompiler, Default::default(), &no_env()).unwrap();
    assert_eq!(line(&native, 0), line(&jailed, 0));
    assert_eq!(native.executable, jailed.executable);
}

#[test]
fn installation_results() {
    assert!(installed_result("rustc", true).is_ok());
    match installed_result("rustc", false) {
        Err(CompilationError::ProgramNotInstalled(p)) => assert_eq!(p, "rustc"),
        _ => panic!("expected a missing program"),
    }
    match check_program_installed("surely-not-an-installed-program-4711") {
        Err(CompilationError::ProgramNotInstalled(p)) => assert_eq!(p, "surely-not-an-installed-program-4711"),
        _ => panic!("expected a missing program"),
    }
    let plan = <RustCompiler as Compiler<NativeRuntime>>::plan(&RustCompiler, Default::default(), &no_env()).unwrap();
    let mut plan = plan;
    plan.required_programs = vec!["surely-not-an-installed-program-4711".to_string()];
    assert!(matches!(plan.check_tools(), Err(CompilationError::ProgramNotInstalled(_))));
}

#[test]
fn compile_outcomes() {
    assert!(compile_outcome(true, String::new()).is_ok());
    match compile_outcome(false, "error[E0425]".to_string()) {
        Err(CompilationError::CompilationFailed(s)) => assert_eq!(s, "error[E0425]"),
        _ => panic!("expected a failed compilation"),
    }
}

#[test]
fn tools_outcome_names_first_missing() {
    let programs = vec!["cython".to_string(), "clang++".to_string(), "node".to_string()];
    assert!(tools_outcome(&programs, &vec![true, true, true]).is_ok());
    assert!(tools_outcome(&Vec::new(), &Vec::new()).is_ok());
    match tools_outcome(&programs, &vec![true, false, false]) {
        Err(CompilationError::ProgramNotInstalled(p)) => assert_eq!(p, "clang++"),
        _ => panic!("expected clang++ to be missing"),
    }
    match tools_outcome(&programs, &vec![false, true, false]) {
        Err(CompilationError::ProgramNotInstalled(p)) => assert_eq!(p, "cython"),
        _ => panic!("expected cython to be missing"),
    }
}
