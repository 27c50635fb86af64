//! The benchmark on Wasmtime, with its Cranelift, Winch and Pulley back ends.
use crate::cli::Runtime;
use crate::outcome::fail_at;
use crate::outcome::fail_with_causes;
use crate::outcome::lemma_score_kinds;
use crate::outcome::is_score_signature;
use crate::outcome::score_signature_spec;
use crate::outcome::finish_call;
use crate::outcome::CoremarkError;
use crate::outcome::Stage;
use crate::wasmtime_embed::call;
use crate::wasmtime_embed::compile;
use crate::wasmtime_embed::config_for;
use crate::wasmtime_embed::config_target;
use crate::wasmtime_embed::engine_new;
use crate::wasmtime_embed::get_func;
use crate::wasmtime_embed::instantiate;
use crate::wasmtime_embed::open_with_clock;
use crate::wasmtime_embed::signature;
use crate::wasmtime_embed::error_chain;
use crate::wasmtime_embed::wasmtime_export_type;
use crate::wasmtime_embed::wasmtime_pulley_compiles;
use crate::wasmtime_embed::WasmtimeEngine;
use crate::wasmtime_embed::WasmtimeInstance;
use crate::wasmtime_embed::WasmtimeLinking;
use crate::wasmtime_embed::WasmtimeLoaded;
use crate::wasmtime_embed::wasmtime_imports_only;
use std::time::Instant;
use vstd::prelude::*;

verus! {

/// The Wasmtime back end that runs the benchmark.
#[derive(Clone, Copy, Debug, PartialEq, Eq, Structural)]
pub enum WasmtimeBackend {
    /// Cranelift, compiling for the host.
    Wasmtime,
    /// Winch, the baseline compiler.
    Winch,
    /// Cranelift, compiling for the Pulley interpreter.
    Pulley,
}

/// The code generator that Wasmtime is told to use.
#[derive(Clone, Copy, Debug, PartialEq, Eq, Structural)]
pub enum CompilerStrategy {
    Cranelift,
    Winch,
}

/// Winch compiles for the Winch back end; both other back ends use Cranelift.
pub open spec fn backend_strategy_spec(b: WasmtimeBackend) -> CompilerStrategy {
    if b == WasmtimeBackend::Winch {
        CompilerStrategy::Winch
    } else {
        CompilerStrategy::Cranelift
    }
}

/// The target triple a back end compiles for: `pulley64` for Pulley, and
/// none, that is the host, for the others.
pub open spec fn backend_target_spec(b: WasmtimeBackend) -> Option<Seq<char>> {
    if b == WasmtimeBackend::Pulley {
        Some("pulley64"@)
    } else {
        None
    }
}

/// Winch compiles for the Winch back end; both other back ends use Cranelift.
pub fn backend_strategy(b: WasmtimeBackend) -> (s: CompilerStrategy)
    ensures
        s == backend_strategy_spec(b),
        b == WasmtimeBackend::Wasmtime ==> s == CompilerStrategy::Cranelift,
        b == WasmtimeBackend::Winch ==> s == CompilerStrategy::Winch,
        b == WasmtimeBackend::Pulley ==> s == CompilerStrategy::Cranelift,
{
    match b {
        WasmtimeBackend::Winch => CompilerStrategy::Winch,
        WasmtimeBackend::Pulley | WasmtimeBackend::Wasmtime => CompilerStrategy::Cranelift,
    }
}

/// Each back end compiles with its own code generator and for its own
/// target: Wasmtime with Cranelift for the host, Winch with Winch for the
/// host, and Pulley with Cranelift for `pulley64`.
pub proof fn lemma_backend_table(b: WasmtimeBackend)
    ensures
        b == WasmtimeBackend::Wasmtime ==> backend_strategy_spec(b) == CompilerStrategy::Cranelift
            && backend_target_spec(b) == None::<Seq<char>>,
        b == WasmtimeBackend::Winch ==> backend_strategy_spec(b) == CompilerStrategy::Winch
            && backend_target_spec(b) == None::<Seq<char>>,
        b == WasmtimeBackend::Pulley ==> backend_strategy_spec(b) == CompilerStrategy::Cranelift
            && backend_target_spec(b) == Some("pulley64"@),
{
}

/// The target triple a back end sets: `pulley64` for Pulley, and none, that
/// is the host, for the others.
pub fn backend_target(b: WasmtimeBackend) -> (t: Option<&'static str>)
    ensures
        t is Some <==> b == WasmtimeBackend::Pulley,
        t matches Some(s) ==> s@ == "pulley64"@,
        match t {
            Some(s) => backend_target_spec(b) == Some(s@),
            None => backend_target_spec(b) == None::<Seq<char>>,
        },
{
    match b {
        WasmtimeBackend::Pulley => Some("pulley64"),
        _ => None,
    }
}

/// The runtime a back end stands for in reports.
pub open spec fn backend_runtime_spec(b: WasmtimeBackend) -> Runtime {
    match b {
        WasmtimeBackend::Wasmtime => Runtime::Wasmtime,
        WasmtimeBackend::Winch => Runtime::Winch,
        WasmtimeBackend::Pulley => Runtime::Pulley,
    }
}

/// The runtime a back end stands for in reports.
pub fn backend_runtime(b: WasmtimeBackend) -> (r: Runtime)
    ensures
        r == backend_runtime_spec(b),
{
    match b {
        WasmtimeBackend::Wasmtime => Runtime::Wasmtime,
        WasmtimeBackend::Winch => Runtime::Winch,
        WasmtimeBackend::Pulley => Runtime::Pulley,
    }
}

/// Configures and builds the Wasmtime engine of back end `backend`: its
/// strategy is `backend_strategy(backend)` and its target
/// `backend_target(backend)`. Only Pulley sets a target, `pulley64`, which
/// Wasmtime always accepts, so a failure is the engine's.
pub fn wasmtime_engine(backend: WasmtimeBackend) -> (r: Result<WasmtimeEngine, CoremarkError>)
    ensures
        r matches Ok(e) ==> e.strategy() == backend_strategy_spec(backend) && e.target()
            == backend_target_spec(backend),
        r matches Ok(e) ==> (e.strategy() == CompilerStrategy::Winch <==> backend
            == WasmtimeBackend::Winch),
        r matches Ok(e) ==> (e.strategy() == CompilerStrategy::Cranelift <==> backend
            != WasmtimeBackend::Winch),
        r matches Ok(e) ==> (e.target() == Some("pulley64"@) <==> backend
            == WasmtimeBackend::Pulley),
        r matches Ok(e) ==> (e.target() is None <==> backend != WasmtimeBackend::Pulley),
        r matches Err(e) ==> e.runtime == backend_runtime_spec(backend),
        r matches Err(e) ==> e.stage == Stage::CreateEngine,
{
    let runtime = backend_runtime(backend);
    let mut setup = config_for(backend_strategy(backend));
    if let Some(target) = backend_target(backend) {
        if let Err(e) = config_target(&mut setup, target) {
            return Err(fail_with_causes(runtime, Stage::SetTarget, error_chain(&e)));
        }
    }
    match engine_new(&setup) {
        Ok(engine) => Ok(engine),
        Err(e) => Err(fail_with_causes(runtime, Stage::CreateEngine, error_chain(&e))),
    }
}

/// Whether `stage` is a step of a run on an engine that comes before the
/// call of `run`: defining the clock, compiling, instantiating, or looking
/// up `run`.
pub open spec fn before_call(stage: Stage) -> bool {
    stage == Stage::DefineHostFunction || stage == Stage::Compile || stage == Stage::Instantiate
        || stage == Stage::FindExport
}

/// What a run over the binary `wasm` on an engine with target `target`,
/// reported under `runtime`, may end with, `r`. A failure is one of the
/// steps up to the call of `run`; a score comes only from a module that
/// imports nothing but `env::clock_ms` and exports `run` as a function of
/// type `() -> f32`. A module with another import fails at instantiation or
/// before, one without such a `run` at the lookup step or before, and `run`
/// is called, and so can fail, only when it has that type. On the Pulley
/// target, a failed compile means that Pulley rejects `wasm`, and a module
/// it rejects fails at the compile step or before.
pub open spec fn run_outcome(
    runtime: Runtime,
    target: Option<Seq<char>>,
    wasm: Seq<u8>,
    r: Result<u32, CoremarkError>,
) -> bool {
    let typed = wasmtime_export_type(wasm, "run"@) == Some(score_signature_spec());
    let imports = wasmtime_imports_only(wasm, "env"@, "clock_ms"@);
    &&& r matches Err(e) ==> e.runtime == runtime
    &&& r matches Err(e) ==> before_call(e.stage) || e.stage == Stage::Execute
    &&& r is Ok ==> typed && imports
    &&& !imports ==> r is Err && (r->Err_0.stage == Stage::DefineHostFunction || r->Err_0.stage
        == Stage::Compile || r->Err_0.stage == Stage::Instantiate)
    &&& !typed ==> r is Err && before_call(r->Err_0.stage)
    &&& r matches Err(e) ==> (e.stage == Stage::FindExport ==> !typed)
    &&& r matches Err(e) ==> (e.stage == Stage::Execute ==> typed)
    &&& target == Some("pulley64"@) ==> ((r is Err && r->Err_0.stage == Stage::Compile)
        ==> !wasmtime_pulley_compiles(wasm))
    &&& target == Some("pulley64"@) && !wasmtime_pulley_compiles(wasm) ==> r is Err && (
    r->Err_0.stage == Stage::DefineHostFunction || r->Err_0.stage == Stage::Compile)
}

/// Runs the benchmark's `run` export on `engine` and gives back the bits of
/// the `f32` score, or the step that failed, tagged with `runtime`, as
/// `run_outcome` states. The host function `env::clock_ms` counts from
/// `started`. Each step's outcome is handed on to `wasmtime_linked`,
/// `wasmtime_compiled` and `wasmtime_instantiated`.
pub fn wasmtime_run(engine: &WasmtimeEngine, runtime: Runtime, wasm: &[u8], started: &Instant) -> (r:
    Result<u32, CoremarkError>)
    ensures
        run_outcome(runtime, engine.target(), wasm@, r),
{
    let linking = open_with_clock(engine, "env", "clock_ms", started);
    wasmtime_linked(runtime, linking, wasm)
}

/// Goes on from the definition of a host function: a failed definition is
/// a failure at that step; on the linker it gave, the binary `wasm` is
/// compiled and the run goes on with `wasmtime_compiled`. For the Pulley
/// target, the run stops at the compile step exactly when Pulley rejects
/// `wasm`.
pub fn wasmtime_linked(
    runtime: Runtime,
    linking: Result<WasmtimeLinking, wasmtime::Error>,
    wasm: &[u8],
) -> (r: Result<u32, CoremarkError>)
    ensures
        r matches Err(e) ==> e.runtime == runtime,
        linking is Err ==> r is Err && r->Err_0.stage == Stage::DefineHostFunction,
        linking is Ok ==> (r matches Err(e) ==> e.stage == Stage::Compile || e.stage
            == Stage::Instantiate || e.stage == Stage::FindExport || e.stage == Stage::Execute),
        linking matches Ok(l) ==> (!wasmtime_imports_only(wasm@, l.defined().0, l.defined().1)
            ==> r is Err && (r->Err_0.stage == Stage::Compile || r->Err_0.stage
            == Stage::Instantiate)),
        linking is Ok && wasmtime_export_type(wasm@, "run"@) != Some(score_signature_spec())
            ==> r is Err && (r->Err_0.stage == Stage::Compile || r->Err_0.stage
            == Stage::Instantiate || r->Err_0.stage == Stage::FindExport),
        linking matches Ok(l) ==> (r is Ok ==> wasmtime_export_type(wasm@, "run"@) == Some(
            score_signature_spec(),
        ) && wasmtime_imports_only(wasm@, l.defined().0, l.defined().1)),
        r matches Err(e) ==> (e.stage == Stage::Execute ==> wasmtime_export_type(wasm@, "run"@)
            == Some(score_signature_spec())),
        r matches Err(e) ==> (e.stage == Stage::FindExport ==> wasmtime_export_type(
            wasm@,
            "run"@,
        ) != Some(score_signature_spec())),
        linking matches Ok(l) ==> (l.target() == Some("pulley64"@) ==> ((r is Err && r->Err_0.stage
            == Stage::Compile) <==> !wasmtime_pulley_compiles(wasm@))),
{
    match linking {
        Err(e) => Err(fail_with_causes(runtime, Stage::DefineHostFunction, error_chain(&e))),
        Ok(l) => wasmtime_compiled(runtime, compile(l, wasm)),
    }
}

/// Goes on from the compilation of a module: a failed compilation is a
/// failure at the compile step; the compiled module is instantiated and the
/// run goes on with `wasmtime_instantiated`. A module with an import other
/// than the linker's one definition fails at instantiation.
pub fn wasmtime_compiled(runtime: Runtime, loaded: Result<WasmtimeLoaded, wasmtime::Error>) -> (r:
    Result<u32, CoremarkError>)
    ensures
        r matches Err(e) ==> e.runtime == runtime,
        loaded is Err ==> r is Err && r->Err_0.stage == Stage::Compile,
        loaded is Ok ==> (r matches Err(e) ==> e.stage == Stage::Instantiate || e.stage
            == Stage::FindExport || e.stage == Stage::Execute),
        loaded matches Ok(m) ==> (!wasmtime_imports_only(m.bytes(), m.defined().0, m.defined().1)
            ==> r is Err && r->Err_0.stage == Stage::Instantiate),
        loaded matches Ok(m) ==> (wasmtime_export_type(m.bytes(), "run"@) != Some(
            score_signature_spec(),
        ) ==> r is Err && (r->Err_0.stage == Stage::Instantiate || r->Err_0.stage
            == Stage::FindExport)),
        loaded matches Ok(m) ==> (r is Ok ==> wasmtime_imports_only(
            m.bytes(),
            m.defined().0,
            m.defined().1,
        ) && wasmtime_export_type(m.bytes(), "run"@) == Some(score_signature_spec())),
        loaded matches Ok(m) ==> (r matches Err(e) ==> (e.stage == Stage::FindExport
            ==> wasmtime_export_type(m.bytes(), "run"@) != Some(score_signature_spec()))),
        loaded matches Ok(m) ==> (r matches Err(e) ==> (e.stage == Stage::Execute
            ==> wasmtime_export_type(m.bytes(), "run"@) == Some(score_signature_spec()))),
{
    match loaded {
        Err(e) => Err(fail_with_causes(runtime, Stage::Compile, error_chain(&e))),
        Ok(m) => wasmtime_instantiated(runtime, instantiate(m)),
    }
}

/// Goes on from the instantiation of a module: a failed instantiation is a
/// failure at that step. On an instance, the run looks up `run`, and fails
/// at the lookup step exactly when the module exports no function of type
/// `() -> f32` under that name; such a function is called with room for its
/// one result, and then the run fails at the execute step exactly when the
/// call fails; the `f32` it gives back is the score.
pub fn wasmtime_instantiated(
    runtime: Runtime,
    instance: Result<WasmtimeInstance, wasmtime::Error>,
) -> (r: Result<u32, CoremarkError>)
    ensures
        r matches Err(e) ==> e.runtime == runtime,
        instance is Err ==> r is Err && r->Err_0.stage == Stage::Instantiate,
        instance matches Ok(i) ==> ((r is Err && r->Err_0.stage == Stage::FindExport)
            <==> wasmtime_export_type(i.bytes(), "run"@) != Some(score_signature_spec())),
        instance is Ok ==> (r matches Err(e) ==> e.stage == Stage::FindExport || e.stage
            == Stage::Execute),
{
    let i = match instance {
        Ok(i) => i,
        Err(e) => return Err(fail_with_causes(runtime, Stage::Instantiate, error_chain(&e))),
    };
    let mut run = match get_func(i, "run") {
        Some(entry) => entry,
        None => return Err(fail_at(runtime, Stage::FindExport, String::new())),
    };
    let (params, results) = signature(&run);
    if !is_score_signature(&params, &results) {
        return Err(fail_at(runtime, Stage::FindExport, String::new()));
    }
    match call(&mut run, results.len()) {
        Ok(values) => {
            proof {
                lemma_score_kinds(values@);
            }
            finish_call(runtime, Ok(values))
        },
        Err(e) => Err(fail_with_causes(runtime, Stage::Execute, error_chain(&e))),
    }
}

/// Runs the benchmark's `run` export on the Wasmtime back end `backend`: it
/// builds the back end's engine with `wasmtime_engine` and runs on it with
/// `wasmtime_run`. Besides a failure to build the engine, it ends as
/// `run_outcome` states for the back end's target. The second part of the
/// result names the code generator and target of the engine the run took
/// place on, or nothing when no engine was built: Winch for the Winch back
/// end and Cranelift for the others, `pulley64` for Pulley and the host for
/// the others.
pub fn wasmtime_coremark_impl(backend: WasmtimeBackend, wasm: &[u8], started: &Instant) -> (r: (
    Result<u32, CoremarkError>,
    Ghost<Option<(CompilerStrategy, Option<Seq<char>>)>>,
))
    ensures
        backend_outcome(backend, wasm@, r.0),
        r.1@ is None ==> r.0 is Err && r.0->Err_0.stage == Stage::CreateEngine,
        r.0 is Ok ==> r.1@ is Some,
        r.1@ matches Some(engine) ==> run_outcome(
            backend_runtime_spec(backend),
            engine.1,
            wasm@,
            r.0,
        ),
        r.1@ matches Some(engine) ==> (engine.0 == CompilerStrategy::Winch <==> backend
            == WasmtimeBackend::Winch),
        r.1@ matches Some(engine) ==> (engine.0 == CompilerStrategy::Cranelift <==> backend
            != WasmtimeBackend::Winch),
        r.1@ matches Some(engine) ==> (engine.1 == Some("pulley64"@) <==> backend
            == WasmtimeBackend::Pulley),
        r.1@ matches Some(engine) ==> (engine.1 is None <==> backend != WasmtimeBackend::Pulley),
{
    let engine = match wasmtime_engine(backend) {
        Ok(engine) => engine,
        Err(e) => return (Err(e), Ghost(None)),
    };
    let ghost used = (engine.strategy(), engine.target());
    (wasmtime_run(&engine, backend_runtime(backend), wasm, started), Ghost(Some(used)))
}

/// What a run on back end `backend` over the binary `wasm` may end with,
/// `r`: a failure to build the engine, tagged with the back end, or what
/// `run_outcome` allows on the back end's target.
pub open spec fn backend_outcome(
    backend: WasmtimeBackend,
    wasm: Seq<u8>,
    r: Result<u32, CoremarkError>,
) -> bool {
    ||| r is Err && r->Err_0.stage == Stage::CreateEngine && r->Err_0.runtime
        == backend_runtime_spec(backend)
    ||| run_outcome(backend_runtime_spec(backend), backend_target_spec(backend), wasm, r)
}

/// The benchmark on Wasmtime with Cranelift.
pub fn wasmtime_coremark(wasm: &[u8], started: &Instant) -> (r: Result<u32, CoremarkError>)
    ensures
        backend_outcome(WasmtimeBackend::Wasmtime, wasm@, r),
{
    let (r, _engine) = wasmtime_coremark_impl(WasmtimeBackend::Wasmtime, wasm, started);
    r
}

/// The benchmark on Wasmtime with Winch.
pub fn winch_coremark(wasm: &[u8], started: &Instant) -> (r: Result<u32, CoremarkError>)
    ensures
        backend_outcome(WasmtimeBackend::Winch, wasm@, r),
{
    let (r, _engine) = wasmtime_coremark_impl(WasmtimeBackend::Winch, wasm, started);
    r
}

/// The benchmark on Wasmtime's Pulley interpreter.
pub fn pulley_coremark(wasm: &[u8], started: &Instant) -> (r: Result<u32, CoremarkError>)
    ensures
        backend_outcome(WasmtimeBackend::Pulley, wasm@, r),
{
    let (r, _engine) = wasmtime_coremark_impl(WasmtimeBackend::Pulley, wasm, started);
    r
}

} // verus!
