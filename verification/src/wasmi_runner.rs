//! The benchmark on the Wasmi interpreter.
use crate::cli::Runtime;
use crate::outcome::describe;
use crate::outcome::fail_at;
use crate::outcome::CoremarkError;
use crate::outcome::Stage;
use crate::wasmi_embed::call_score;
use crate::wasmi_embed::compile;
use crate::wasmi_embed::get_score_func;
use crate::wasmi_embed::instantiate;
use crate::wasmi_embed::open_with_clock;
use crate::wasmi_embed::wasmi_compiles;
use crate::wasmi_embed::wasmi_imports_only;
use crate::wasmi_embed::wasmi_typed_export;
use crate::wasmi_embed::WasmiInstance;
use crate::wasmi_embed::WasmiLoaded;
use std::time::Instant;
use vstd::prelude::*;

verus! {

/// Runs the benchmark's `run` export on Wasmi and gives back the bits of the
/// `f32` score, or the step that failed. The host function `env::clock_ms`
/// counts from `started`. Defining the clock on a fresh linker cannot fail;
/// the run stops at the compile step exactly when Wasmi rejects `wasm`. A
/// score comes only from a module that imports nothing but `env::clock_ms`
/// and exports `run` as a function of type `() -> f32`. A compiled module
/// with another import fails at instantiation, and one without such a `run`
/// at instantiation or at the lookup step; the lookup step fails only for
/// such a module, and `run` is called, and so can fail, only when it has
/// that type. The compiled module goes on to `wasmi_compiled`, the instance
/// to `wasmi_instantiated`.
pub fn wasmi_coremark(wasm: &[u8], started: &Instant) -> (r: Result<u32, CoremarkError>)
    ensures
        r matches Err(e) ==> e.runtime == Runtime::Wasmi,
        r matches Err(e) ==> e.stage == Stage::Compile || e.stage == Stage::Instantiate || e.stage
            == Stage::FindExport || e.stage == Stage::Execute,
        (r is Err && r->Err_0.stage == Stage::Compile) <==> !wasmi_compiles(wasm@),
        r is Ok ==> wasmi_typed_export(wasm@, "run"@),
        r is Ok ==> wasmi_imports_only(wasm@, "env"@, "clock_ms"@),
        wasmi_compiles(wasm@) && !wasmi_imports_only(wasm@, "env"@, "clock_ms"@) ==> r is Err
            && r->Err_0.stage == Stage::Instantiate,
        wasmi_compiles(wasm@) && !wasmi_typed_export(wasm@, "run"@) ==> r is Err && (
        r->Err_0.stage == Stage::Instantiate || r->Err_0.stage == Stage::FindExport),
        r matches Err(e) ==> (e.stage == Stage::FindExport ==> !wasmi_typed_export(wasm@, "run"@)),
        r matches Err(e) ==> (e.stage == Stage::Execute ==> wasmi_typed_export(wasm@, "run"@)),
{
    let linking = match open_with_clock("env", "clock_ms", started) {
        Ok(linking) => linking,
        Err(e) => return Err(fail_at(Runtime::Wasmi, Stage::DefineHostFunction, describe(&e))),
    };
    wasmi_compiled(compile(linking, wasm))
}

/// Goes on from the compilation of a module: a failed compilation is a
/// failure at the compile step; the compiled module is instantiated, and
/// started, and the run goes on with `wasmi_instantiated`. A module with an
/// import other than the linker's one definition fails at instantiation.
pub fn wasmi_compiled(loaded: Result<WasmiLoaded, wasmi::Error>) -> (r: Result<u32, CoremarkError>)
    ensures
        r matches Err(e) ==> e.runtime == Runtime::Wasmi,
        loaded is Err ==> r is Err && r->Err_0.stage == Stage::Compile,
        loaded is Ok ==> (r matches Err(e) ==> e.stage == Stage::Instantiate || e.stage
            == Stage::FindExport || e.stage == Stage::Execute),
        loaded matches Ok(m) ==> (!wasmi_imports_only(m.bytes(), m.defined().0, m.defined().1)
            ==> r is Err && r->Err_0.stage == Stage::Instantiate),
        loaded matches Ok(m) ==> (!wasmi_typed_export(m.bytes(), "run"@) ==> r is Err && (
        r->Err_0.stage == Stage::Instantiate || r->Err_0.stage == Stage::FindExport)),
        loaded matches Ok(m) ==> (r is Ok ==> wasmi_imports_only(
            m.bytes(),
            m.defined().0,
            m.defined().1,
        ) && wasmi_typed_export(m.bytes(), "run"@)),
        loaded matches Ok(m) ==> (r matches Err(e) ==> (e.stage == Stage::FindExport
            ==> !wasmi_typed_export(m.bytes(), "run"@))),
        loaded matches Ok(m) ==> (r matches Err(e) ==> (e.stage == Stage::Execute
            ==> wasmi_typed_export(m.bytes(), "run"@))),
{
    match loaded {
        Err(e) => Err(fail_at(Runtime::Wasmi, Stage::Compile, describe(&e))),
        Ok(m) => wasmi_instantiated(instantiate(m)),
    }
}

/// Goes on from the instantiation of a module: a failed instantiation is a
/// failure at that step. On an instance, the run looks up `run` typed as
/// `() -> f32`, and fails at the lookup step, with Wasmi's account, exactly
/// when the module exports no function of that type under that name; such
/// a function is called, the run fails at the execute step exactly when the
/// call fails, and the `f32` it gives back is the score.
pub fn wasmi_instantiated(instance: Result<WasmiInstance, wasmi::Error>) -> (r: Result<
    u32,
    CoremarkError,
>)
    ensures
        r matches Err(e) ==> e.runtime == Runtime::Wasmi,
        instance is Err ==> r is Err && r->Err_0.stage == Stage::Instantiate,
        instance matches Ok(i) ==> ((r is Err && r->Err_0.stage == Stage::FindExport)
            <==> !wasmi_typed_export(i.bytes(), "run"@)),
        instance is Ok ==> (r matches Err(e) ==> e.stage == Stage::FindExport || e.stage
            == Stage::Execute),
{
    let runtime = Runtime::Wasmi;
    let i = match instance {
        Ok(i) => i,
        Err(e) => return Err(fail_at(runtime, Stage::Instantiate, describe(&e))),
    };
    let mut run = match get_score_func(i, "run") {
        Ok(entry) => entry,
        Err(e) => return Err(fail_at(runtime, Stage::FindExport, describe(&e))),
    };
    match call_score(&mut run) {
        Ok(bits) => Ok(bits),
        Err(e) => Err(fail_at(runtime, Stage::Execute, describe(&e))),
    }
}

} // verus!
