use std::path::PathBuf;
use std::time::Duration;

use exers::common::runtime::{InputData, MemoryDeclaration, MemoryLimit, MemoryLimitError, StdinFeed};
use exers::runtimes::jailed_runtime::{JailedError, JailedRuntime};
use exers::runtimes::native_runtime::{NativeAdditionalData, NativeConfig, NativeRuntime};
use exers::runtimes::report_stream;
use exers::runtimes::wasm_runtime::{WasmAdditionalData, WasmCompiler, WasmConfig, WasmRuntime};

#[test]
fn native_command_lines() {
    let script = NativeAdditionalData { program: Some("python3".to_string()) };
    assert_eq!(NativeRuntime.command(&script, "/tmp/x/code.py"), vec!["python3", "/tmp/x/code.py"]);
    assert_eq!(NativeRuntime.command(&NativeAdditionalData::default(), "/tmp/x/executable"), vec!["/tmp/x/executable"]);
}

#[test]
fn native_stdin_is_verbatim() {
    let config = NativeConfig { stdin: InputData::String("world".to_string()) };
    assert!(config.stdin.is_piped());
    match NativeRuntime.stdin_feed(config) {
        StdinFeed::Text(t) => assert_eq!(t, "world"),
        _ => panic!("expected a text"),
    }
    let config = NativeConfig::default();
    assert!(!config.stdin.is_piped());
    assert!(matches!(NativeRuntime.stdin_feed(config), StdinFeed::Nothing));
    let config = NativeConfig { stdin: InputData::File(PathBuf::from("/tmp/in.txt")) };
    match NativeRuntime.stdin_feed(config) {
        StdinFeed::File(p) => assert_eq!(p, PathBuf::from("/tmp/in.txt")),
        _ => panic!("expected a file"),
    }
}

#[test]
fn native_results_report_empty_streams_as_absent() {
    let r = NativeRuntime.result("Hello, world!\n".to_string(), String::new(), Some(3), Duration::from_millis(5));
    assert_eq!(r.stdout, Some("Hello, world!\n".to_string()));
    assert_eq!(r.stderr, None);
    assert_eq!(r.exit_code, 3);
    assert_eq!(r.time_taken, Duration::from_millis(5));
    let r = NativeRuntime.result(String::new(), "boom".to_string(), None, Duration::from_nanos(1));
    assert_eq!(r.stdout, None);
    assert_eq!(r.stderr, Some("boom".to_string()));
    assert_eq!(r.exit_code, 0);
    assert_eq!(report_stream(String::new()), None);
}

#[test]
fn jailed_command_requires_root() {
    assert!(matches!(
        JailedRuntime.command(false, "/tmp/s", None, "/tmp/s/executable"),
        Err(JailedError::RootRequired)
    ));
    let argv = JailedRuntime.command(true, "/tmp/s", None, "/tmp/s/executable").unwrap();
    assert_eq!(argv, vec!["bash", "/tmp/s/jail.sh", "/tmp/s/jail", "/tmp/s/executable"]);
    let argv = JailedRuntime
        .command(true, "/tmp/s", Some("/usr/bin/node".to_string()), "/tmp/s/code.js")
        .unwrap();
    assert_eq!(argv, vec!["bash", "/tmp/s/jail.sh", "/tmp/s/jail", "/usr/bin/node", "/tmp/s/code.js"]);
}

#[test]
fn wasm_default_plan() {
    let plan = WasmRuntime.plan(WasmConfig::default(), WasmAdditionalData::default());
    assert_eq!(plan.compiler, WasmCompiler::Cranelift);
    assert_eq!(plan.metering, None);
    assert_eq!(plan.memory, None);
    assert_eq!(plan.program_name, "wasi_program");
    assert!(plan.args.is_empty());
    assert!(plan.sandbox_dir.is_none());
    assert_eq!(plan.mount_point, "/sandbox");
    assert!(matches!(plan.stdin, StdinFeed::Nothing));
}

#[test]
fn wasm_plan_with_limits_and_input() {
    let config = WasmConfig {
        gas: 5000,
        memory_limit: 100,
        stdin: InputData::String("world".to_string()),
        ..Default::default()
    };
    let data = WasmAdditionalData {
        args: vec!["/sandbox/code.py".to_string()],
        preopen_dir: Some(PathBuf::from("/tmp/s/sandbox")),
    };
    let plan = WasmRuntime.plan(config, data);
    assert_eq!(plan.metering, Some(5000));
    assert_eq!(plan.memory, Some(MemoryLimit { limit: 100 }));
    assert_eq!(plan.args, vec!["/sandbox/code.py"]);
    assert_eq!(plan.sandbox_dir, Some(PathBuf::from("/tmp/s/sandbox")));
    match plan.stdin {
        StdinFeed::Text(t) => assert_eq!(t, "world\n"),
        _ => panic!("expected a text"),
    }
}

#[test]
fn wasm_gas_budget_of_one_hundred() {
    let plan = WasmRuntime.plan(WasmConfig { gas: 100, ..Default::default() }, WasmAdditionalData::default());
    assert_eq!(plan.metering, Some(100));
}

#[test]
fn wasm_results_keep_both_streams() {
    let r = WasmRuntime.result("Hello, world!\n".to_string(), String::new(), Duration::from_micros(7));
    assert_eq!(r.stdout, Some("Hello, world!\n".to_string()));
    assert_eq!(r.stderr, Some(String::new()));
    assert_eq!(r.exit_code, 0);
    assert_eq!(r.time_taken, Duration::from_micros(7));
}

#[test]
fn memory_cap_of_one_hundred_pages() {
    let cap = MemoryLimit::new(100);
    let unbounded = MemoryDeclaration { minimum: 17, maximum: None };
    assert_eq!(cap.adjust_memory(&unbounded), MemoryDeclaration { minimum: 17, maximum: Some(100) });
    assert_eq!(cap.validate_memory(&unbounded), Err(MemoryLimitError::MaximumUnspecified));
    assert_eq!(cap.apply(&unbounded), Ok(MemoryDeclaration { minimum: 17, maximum: Some(100) }));
    let big = MemoryDeclaration { minimum: 101, maximum: None };
    assert_eq!(cap.apply(&big), Err(MemoryLimitError::MinimumExceedsLimit));
    let growing = MemoryDeclaration { minimum: 17, maximum: Some(65536) };
    assert_eq!(cap.apply(&growing), Err(MemoryLimitError::MaximumExceedsLimit));
    let exact = MemoryDeclaration { minimum: 100, maximum: Some(100) };
    assert_eq!(cap.apply(&exact), Ok(exact));
    assert_eq!(MemoryLimitError::MinimumExceedsLimit.message(), "Minimum memory exceeds the limit");
}

#[test]
fn wasm_memory_cap_saturates() {
    let huge = (u32::MAX as usize).saturating_add(2);
    let plan = WasmRuntime.plan(WasmConfig { memory_limit: huge, ..Default::default() }, WasmAdditionalData::default());
    assert_eq!(plan.memory, Some(MemoryLimit { limit: u32::MAX }));
}
