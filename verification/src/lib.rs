//! Runs the CoreMark benchmark, compiled to WebAssembly, on several Wasm
//! runtimes, and holds the decisions that surround those runs: which
//! runtimes a command line selects, the clock the benchmark imports, how
//! the binary is fed to a streaming parser, and how a run's result becomes
//! a score or an error.
pub mod cli;
pub mod clock;
pub mod outcome;
pub mod stitch_embed;
pub mod stitch_runner;
pub mod stream;

pub mod tinywasm_embed;
pub mod tinywasm_runner;
pub mod wasmi_embed;
pub mod wasmi_runner;
pub mod wasmtime_embed;
pub mod wasmtime_runner;
