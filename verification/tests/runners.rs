use std::time::Instant;
use wasm_coremark::cli::Runtime;
use wasm_coremark::outcome::CoremarkError;
use wasm_coremark::outcome::Stage;
use wasm_coremark::outcome::ValueKind;
use wasm_coremark::stitch_runner::stitch_coremark;
use wasm_coremark::tinywasm_runner::exports_score_function;
use wasm_coremark::tinywasm_runner::tinywasm_coremark;
use wasm_coremark::wasmi_runner::wasmi_coremark;
use wasm_coremark::wasmtime_runner::pulley_coremark;
use wasm_coremark::wasmtime_runner::wasmtime_coremark;
use wasm_coremark::wasmtime_runner::winch_coremark;

type Runner = fn(&[u8], &Instant) -> Result<u32, CoremarkError>;

fn section(id: u8, content: &[u8]) -> Vec<u8> {
    let mut s = vec![id, content.len() as u8];
    s.extend_from_slice(content);
    s
}

/// A module that imports `env::clock_ms: () -> i32`, and exports as
/// `export` a function of type `() -> result_type` whose body calls the
/// clock, drops its value and then runs `tail`.
fn module(export: &str, result_type: u8, tail: &[u8]) -> Vec<u8> {
    let mut wasm = vec![0x00, 0x61, 0x73, 0x6d, 0x01, 0x00, 0x00, 0x00];
    wasm.extend(section(1, &[0x02, 0x60, 0x00, 0x01, 0x7f, 0x60, 0x00, 0x01, result_type]));
    let mut import = vec![0x01, 0x03];
    import.extend_from_slice(b"env");
    import.push(0x08);
    import.extend_from_slice(b"clock_ms");
    import.extend_from_slice(&[0x00, 0x00]);
    wasm.extend(section(2, &import));
    wasm.extend(section(3, &[0x01, 0x01]));
    let mut exports = vec![0x01, export.len() as u8];
    exports.extend_from_slice(export.as_bytes());
    exports.extend_from_slice(&[0x00, 0x01]);
    wasm.extend(section(7, &exports));
    let mut body = vec![0x00, 0x10, 0x00, 0x1a];
    body.extend_from_slice(tail);
    body.push(0x0b);
    let mut code = vec![0x01, body.len() as u8];
    code.extend(body);
    wasm.extend(section(10, &code));
    wasm
}

fn f32_module(score: f32) -> Vec<u8> {
    let mut tail = vec![0x43];
    tail.extend_from_slice(&score.to_le_bytes());
    module("run", 0x7d, &tail)
}

fn runners() -> Vec<(Runtime, Runner)> {
    vec![
        (Runtime::Wasmtime, wasmtime_coremark as Runner),
        (Runtime::Winch, winch_coremark as Runner),
        (Runtime::Pulley, pulley_coremark as Runner),
        (Runtime::Wasmi, wasmi_coremark as Runner),
        (Runtime::Stitch, stitch_coremark as Runner),
        (Runtime::Tinywasm, tinywasm_coremark as Runner),
    ]
}

fn check_score(runner: Runner) {
    let started = Instant::now();
    let wasm = f32_module(2817.25);
    let bits = runner(&wasm, &started).map_err(|e| e.message()).unwrap();
    assert_eq!(f32::from_bits(bits), 2817.25);
}

fn check_failure(runner: Runner, runtime: Runtime, wasm: &[u8], stages: &[Stage]) {
    let started = Instant::now();
    match runner(wasm, &started) {
        Ok(bits) => panic!("expected a failure, got the score bits {bits:#x}"),
        Err(e) => {
            assert_eq!(e.runtime, runtime);
            assert!(stages.contains(&e.stage), "unexpected step {:?}: {}", e.stage, e.message());
        }
    }
}

#[test]
fn wasmtime_reads_the_score() {
    check_score(wasmtime_coremark);
}

#[test]
fn winch_reads_the_score() {
    check_score(winch_coremark);
}

#[test]
fn pulley_reads_the_score() {
    check_score(pulley_coremark);
}

#[test]
fn wasmi_reads_the_score() {
    check_score(wasmi_coremark);
}

#[test]
fn stitch_reads_the_score() {
    check_score(stitch_coremark);
}

#[test]
fn tinywasm_reads_the_score() {
    check_score(tinywasm_coremark);
}

#[test]
fn every_runtime_rejects_a_broken_binary() {
    let wasm = vec![0x00, 0x61, 0x73, 0x6d, 0x01, 0x00];
    for (runtime, runner) in runners() {
        check_failure(runner, runtime, &wasm, &[Stage::Compile]);
    }
}

#[test]
fn every_runtime_misses_an_absent_export() {
    let mut tail = vec![0x43];
    tail.extend_from_slice(&1.5f32.to_le_bytes());
    let wasm = module("go", 0x7d, &tail);
    for (runtime, runner) in runners() {
        check_failure(runner, runtime, &wasm, &[Stage::FindExport]);
    }
}

#[test]
fn typed_lookups_refuse_a_run_of_another_type() {
    let wasm = module("run", 0x7f, &[0x41, 0x07]);
    for (runtime, runner) in runners() {
        match runtime {
            Runtime::Stitch => {}
            _ => check_failure(runner, runtime, &wasm, &[Stage::FindExport]),
        }
    }
}

#[test]
fn every_runtime_refuses_an_unknown_import() {
    let mut wasm = f32_module(1.0);
    // Rename the import `env::clock_ms` to `env::clock_us`.
    let at = wasm.windows(8).position(|w| w == b"clock_ms").unwrap();
    wasm[at + 6] = b'u';
    for (runtime, runner) in runners() {
        check_failure(runner, runtime, &wasm, &[Stage::Instantiate]);
    }
}

#[test]
fn stitch_reads_an_integer_score_as_f32_bits() {
    let wasm = module("run", 0x7f, &[0x41, 0x07]);
    let started = Instant::now();
    assert_eq!(stitch_coremark(&wasm, &started).map_err(|e| e.message()), Ok(7));
}

#[test]
fn every_runtime_reports_a_trap() {
    let wasm = module("run", 0x7d, &[0x00]);
    for (runtime, runner) in runners() {
        check_failure(runner, runtime, &wasm, &[Stage::Execute]);
    }
}

#[test]
fn the_first_export_of_a_name_decides_its_signature() {
    let score = Some((vec![], vec![ValueKind::F32]));
    let exports = vec![
        (String::from("memory"), None),
        (String::from("run"), score.clone()),
        (String::from("run"), Some((vec![], vec![ValueKind::I32]))),
    ];
    assert!(exports_score_function(&exports, "run"));
    assert!(!exports_score_function(&exports, "memory"));
    assert!(!exports_score_function(&exports, "start"));
    let shadowed = vec![
        (String::from("run"), Some((vec![ValueKind::I64], vec![ValueKind::F32]))),
        (String::from("run"), score),
    ];
    assert!(!exports_score_function(&shadowed, "run"));
    assert!(!exports_score_function(&vec![], "run"));
}
