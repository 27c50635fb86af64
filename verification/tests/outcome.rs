use wasm_coremark::cli::Runtime;
use wasm_coremark::outcome::after_slice;
use wasm_coremark::outcome::error_label;
use wasm_coremark::outcome::fail_at;
use wasm_coremark::outcome::fail_with_causes;
use wasm_coremark::outcome::find_export;
use wasm_coremark::outcome::finish_call;
use wasm_coremark::outcome::is_score_signature;
use wasm_coremark::outcome::score_from_results;
use wasm_coremark::outcome::stage_text;
use wasm_coremark::outcome::NextStep;
use wasm_coremark::outcome::ScalarValue;
use wasm_coremark::outcome::SliceOutcome;
use wasm_coremark::outcome::Stage;
use wasm_coremark::outcome::ValueKind;

#[test]
fn a_single_f32_is_the_score() {
    let bits = 2817.5f32.to_bits();
    assert_eq!(score_from_results(&vec![ScalarValue::F32(bits)]), Ok(bits));
}

#[test]
fn anything_else_is_an_unexpected_result() {
    let bits = 1.0f32.to_bits();
    assert_eq!(score_from_results(&vec![]), Err(Stage::UnexpectedResult));
    assert_eq!(score_from_results(&vec![ScalarValue::I32(3)]), Err(Stage::UnexpectedResult));
    assert_eq!(
        score_from_results(&vec![ScalarValue::F64(1.0f64.to_bits())]),
        Err(Stage::UnexpectedResult)
    );
    assert_eq!(
        score_from_results(&vec![ScalarValue::F32(bits), ScalarValue::F32(bits)]),
        Err(Stage::UnexpectedResult)
    );
    assert_eq!(score_from_results(&vec![ScalarValue::Other]), Err(Stage::UnexpectedResult));
}

#[test]
fn error_messages_name_runtime_and_step() {
    let e = fail_at(Runtime::Wasmi, Stage::Compile, String::new());
    assert_eq!(e.message(), "Wasmi: failed to compile and validate coremark Wasm binary");
    let e = fail_at(Runtime::Wamr, Stage::FindExport, String::from("no such export"));
    assert_eq!(e.message(), "WAMR: could not find \"run\" function export: no such export");
    let e = fail_at(Runtime::Pulley, Stage::SetTarget, String::new());
    assert_eq!(e.message(), "Pulley\n\nCaused by:\n    failed to set target to `pulley64`");
    assert_eq!(e.runtime, Runtime::Pulley);
    assert_eq!(e.stage, Stage::SetTarget);
    let e = fail_at(Runtime::Winch, Stage::Compile, String::from("bad magic"));
    assert_eq!(
        e.message(),
        "Winch\n\nCaused by:\n    0: failed to compile and validate coremark Wasm binary\n    1: bad magic"
    );
}

#[test]
fn runtimes_keep_their_own_wording() {
    let e = fail_at(Runtime::Wasmi, Stage::Instantiate, String::new());
    assert_eq!(e.message(), "Wasmi: failed to start Wasm module instance");
    let e = fail_at(Runtime::Wasmtime, Stage::Instantiate, String::new());
    assert_eq!(e.message(), "Wasmtime\n\nCaused by:\n    failed to instantiate coremark Wasm module");
    let e = fail_at(Runtime::Tinywasm, Stage::Instantiate, String::new());
    assert_eq!(e.message(), "Tinywasm: failed to instantiate Wasm module");
    let e = fail_at(Runtime::Wasm3, Stage::Compile, String::from("bad"));
    assert_eq!(e.message(), "Wasm: failed to parse coremark Wasm module: bad");
    let e = fail_at(Runtime::Wasm3, Stage::ParseModule, String::new());
    assert_eq!(e.message(), "Wasm3: failed to parse Wasm module");
    let e = fail_at(Runtime::Wamr, Stage::DefineHostFunction, String::new());
    assert_eq!(e.message(), "WAMR: failed to register `env::clock_ms` host function");
    let e = fail_at(Runtime::Wamr, Stage::UnexpectedResult, String::from("[]"));
    assert_eq!(e.message(), "WAMR: expected a single f32 result, got []");
    let e = fail_at(Runtime::WasmEdge, Stage::CreateImportObject, String::new());
    assert_eq!(e.message(), "WasmEdge: failed to create import object");
    let e = fail_at(Runtime::SpaceWasm, Stage::InitializeModule, String::from("Trap"));
    assert_eq!(e.message(), "SpaceWasm: module initialization failed: Trap");
    let e = fail_at(Runtime::SpaceWasm, Stage::Execute, String::from("Pause"));
    assert_eq!(e.message(), "SpaceWasm: failed to execute \"run\": Pause");
}

#[test]
fn every_step_has_its_text() {
    assert_eq!(stage_text(Stage::CreateEngine), "failed to create engine");
    assert_eq!(stage_text(Stage::DefineHostFunction), "failed to define `clock_ms` host function");
    assert_eq!(stage_text(Stage::Instantiate), "failed to instantiate coremark Wasm module");
    assert_eq!(stage_text(Stage::Execute), "failed to execute \"run\" function");
    assert_eq!(stage_text(Stage::UnexpectedResult), "expected a single f32 result, got");
    assert_eq!(error_label(Runtime::WasmiV1), "Wasmi");
    assert_eq!(error_label(Runtime::SpaceWasm), "SpaceWasm");
}

#[test]
fn find_export_gives_the_first_match() {
    let names = vec![String::from("memory"), String::from("run"), String::from("run")];
    assert_eq!(find_export(&names, "run"), Some(1));
    assert_eq!(find_export(&names, "memory"), Some(0));
    assert_eq!(find_export(&names, "start"), None);
    assert_eq!(find_export(&Vec::new(), "run"), None);
}

#[test]
fn interpreter_runs_again_only_when_out_of_fuel() {
    assert_eq!(after_slice(SliceOutcome::OutOfFuel), NextStep::RunAgain);
    assert_eq!(after_slice(SliceOutcome::Finished), NextStep::ReadResult);
    assert_eq!(after_slice(SliceOutcome::Failed), NextStep::Fail);
}

#[test]
fn only_nothing_to_one_f32_is_a_score_signature() {
    assert!(is_score_signature(&vec![], &vec![ValueKind::F32]));
    assert!(!is_score_signature(&vec![], &vec![ValueKind::I32]));
    assert!(!is_score_signature(&vec![ValueKind::I32], &vec![ValueKind::F32]));
    assert!(!is_score_signature(&vec![], &vec![ValueKind::F32, ValueKind::F32]));
    assert!(!is_score_signature(&vec![], &vec![]));
}

#[test]
fn a_failed_call_is_an_execute_failure_and_a_finished_one_is_read() {
    let e = finish_call(Runtime::Wasmi, Err(String::from("trap"))).unwrap_err();
    assert_eq!(e.stage, Stage::Execute);
    assert_eq!(e.detail, "trap");
    assert_eq!(e.message(), "Wasmi: failed to execute \"run\" function: trap");
    let bits = 12.5f32.to_bits();
    assert_eq!(finish_call(Runtime::Stitch, Ok(vec![ScalarValue::F32(bits)])).unwrap(), bits);
    let e = finish_call(Runtime::Tinywasm, Ok(vec![ScalarValue::I32(1)])).unwrap_err();
    assert_eq!(e.stage, Stage::UnexpectedResult);
    assert_eq!(e.runtime, Runtime::Tinywasm);
    assert_eq!(e.detail, "");
}

#[test]
fn wasmtime_reports_number_each_cause_and_indent_its_lines() {
    let causes = vec![String::from("wasm trap: unreachable"), String::from("line one\nline two")];
    let e = fail_with_causes(Runtime::Wasmtime, Stage::Execute, causes);
    assert_eq!(e.detail, "");
    assert_eq!(
        e.message(),
        "Wasmtime\n\nCaused by:\n    0: failed to execute \"run\" function\n    1: wasm trap: unreachable\n    2: line one\n       line two"
    );
    let many: Vec<String> = (0..10).map(|i| format!("cause {i}")).collect();
    let e = fail_with_causes(Runtime::Pulley, Stage::Compile, many);
    assert!(e.message().ends_with("\n    9: cause 8\n   10: cause 9"));
    let e = fail_with_causes(Runtime::Winch, Stage::CreateEngine, vec![]);
    assert_eq!(e.message(), "Winch\n\nCaused by:\n    failed to create engine");
    let e = fail_at(Runtime::Winch, Stage::Compile, String::from("a\nb"));
    assert_eq!(e.causes, vec![String::from("a\nb")]);
    assert_eq!(
        e.message(),
        "Winch\n\nCaused by:\n    0: failed to compile and validate coremark Wasm binary\n    1: a\n       b"
    );
}
