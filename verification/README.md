# wasm_coremark

Runs the CoreMark benchmark (`coremark-minimal-mvp.wasm`, read from the
working directory) on several WebAssembly runtimes and prints their scores.

```
Usage: bm [<WASM_RUNTIME>]

WASM_RUNTIME: The WebAssembly runtime with which Coremark is run.
              All available runners are used if the argument is not provided.
```

Layout:

- `src/` is the library, verified with Verus.
  - `cli.rs`: the runtimes, their names, the command line, the usage text.
  - `clock.rs`: the `env::clock_ms` host clock.
  - `stream.rs`: chunked reading of the binary for a streaming parser.
  - `outcome.rs`: result values, the score, errors and their reports.
  - `wasmtime_runner.rs`, `wasmi_runner.rs`, `stitch_runner.rs`,
    `tinywasm_runner.rs`: one run of the benchmark on each runtime, split
    into functions that each take the outcome of one step (compile,
    instantiate, call) and say which failure it becomes.
  - `wasmtime_embed.rs`, `wasmi_embed.rs`, `stitch_embed.rs`,
    `tinywasm_embed.rs`: the calls into each runtime, with each store kept
    together with what lives in it.
- `app/` is the command-line program; it also holds the runs on Wasm3,
  WAMR, WasmEdge and SpaceWasm.
- `tests/` runs the library, including each runtime on small hand-built
  Wasm modules.

Scores are `f32`; the library hands them out as their IEEE 754 bit patterns.
