use wasm_coremark::cli::all_runtimes;
use wasm_coremark::cli::cli_name;
use wasm_coremark::cli::display_name;
use wasm_coremark::cli::help_text;
use wasm_coremark::cli::is_available;
use wasm_coremark::cli::named_run_banner;
use wasm_coremark::cli::parse_command;
use wasm_coremark::cli::possible_values;
use wasm_coremark::cli::run_all_banner;
use wasm_coremark::cli::runs_in_order;
use wasm_coremark::cli::runtime_from_name;
use wasm_coremark::cli::Command;
use wasm_coremark::cli::Runtime;

fn args(list: &[&str]) -> Vec<String> {
    list.iter().map(|s| s.to_string()).collect()
}

#[test]
fn full_list_in_report_order() {
    let names: Vec<&str> = all_runtimes().into_iter().map(display_name).collect();
    assert_eq!(
        names,
        vec![
            "Wasmtime v46",
            "Winch v46",
            "Pulley v46",
            "Wasmi v2",
            "Wasmi v1",
            "Stitch",
            "Wasm3",
            "Tinywasm",
            "WAMR (fast interpreter)",
            "WasmEdge",
            "SpaceWasm"
        ]
    );
}

#[test]
fn names_select_their_runtime() {
    let all = all_runtimes();
    for r in all.clone() {
        assert_eq!(runtime_from_name(&cli_name(r).to_string(), &all), Some(r));
    }
    assert_eq!(runtime_from_name(&String::from("wasmi-v1"), &all), Some(Runtime::WasmiV1));
    assert_eq!(runtime_from_name(&String::from("Wasmi"), &all), None);
    assert_eq!(runtime_from_name(&String::from("v8"), &all), None);
}

#[test]
fn unavailable_runtimes_are_not_selected() {
    let available = vec![Runtime::Wasmi, Runtime::Stitch];
    assert_eq!(runtime_from_name(&String::from("stitch"), &available), Some(Runtime::Stitch));
    assert_eq!(runtime_from_name(&String::from("wasmtime"), &available), None);
    assert!(is_available(&available, Runtime::Wasmi));
    assert!(!is_available(&available, Runtime::Wamr));
}

#[test]
fn command_line_shapes() {
    let available = vec![Runtime::Wasmtime, Runtime::Tinywasm];
    assert_eq!(parse_command(&args(&["bm"]), &available), Command::RunAll);
    assert_eq!(
        parse_command(&args(&["bm", "tinywasm"]), &available),
        Command::RunNamed(Runtime::Tinywasm)
    );
    assert_eq!(parse_command(&args(&["bm", "wamr"]), &available), Command::UnknownName);
    assert_eq!(parse_command(&args(&["bm", "nope"]), &available), Command::UnknownName);
    assert_eq!(parse_command(&args(&["bm", "wasmtime", "x"]), &available), Command::Usage);
    assert_eq!(parse_command(&args(&[]), &available), Command::Usage);
}

#[test]
fn full_run_keeps_report_order() {
    let available = vec![Runtime::SpaceWasm, Runtime::Wasmi, Runtime::Wasmtime];
    assert_eq!(
        runs_in_order(&available),
        vec![Runtime::Wasmtime, Runtime::Wasmi, Runtime::SpaceWasm]
    );
    assert_eq!(runs_in_order(&Vec::new()), Vec::<Runtime>::new());
}

#[test]
fn usage_text_matches_the_command_line_help() {
    let expected = format!(
        "Usage: {} [<WASM_RUNTIME>]\n\n{}\n{}\n{}\n{}",
        "target/debug/bm",
        "WASM_RUNTIME: The WebAssembly runtime with which Coremark is run.",
        "              All available runners are used if the argument is not provided.",
        "",
        "              Possible Values: wasmtime, winch, pulley, wasmi, wasmi-v1, stitch, wasm3, tinywasm, wamr, wasmedge",
    );
    assert_eq!(help_text("target/debug/bm"), expected);
    assert_eq!(
        possible_values(),
        "wasmtime, winch, pulley, wasmi, wasmi-v1, stitch, wasm3, tinywasm, wamr, wasmedge"
    );
}

#[test]
fn banners() {
    assert_eq!(
        named_run_banner("wasmi"),
        "Running Coremark using wasmi ... [should take 12..20 seconds]"
    );
    assert_eq!(run_all_banner(Runtime::Wamr), "Running Coremark using WAMR (fast interpreter) ...");
}
