//! The benchmark on the Stitch interpreter.
use crate::cli::Runtime;
use crate::outcome::describe;
use crate::outcome::fail_at;
use crate::outcome::finish_call;
use crate::outcome::CoremarkError;
use crate::outcome::lemma_score_kinds;
use crate::outcome::Stage;
use crate::stitch_embed::call_for_f32;
use crate::stitch_embed::compile;
use crate::stitch_embed::exported_func;
use crate::stitch_embed::instantiate;
use crate::stitch_embed::open_with_clock;
use crate::stitch_embed::stitch_decodes;
use crate::stitch_embed::stitch_exports_func;
use crate::stitch_embed::stitch_imports_only;
use crate::stitch_embed::StitchInstance;
use crate::stitch_embed::StitchLoaded;
use std::time::Instant;
use vstd::prelude::*;

verus! {

/// Runs the benchmark's `run` export on Stitch, with one `f32` result slot,
/// and gives back the bits of the score, or the step that failed. The host
/// function `env::clock_ms` counts from `started`. The run stops at the
/// compile step exactly when Stitch rejects `wasm`; a compiled module with
/// an import other than `env::clock_ms` fails at instantiation, and one
/// without a `run` function never gives a score. The compiled module goes
/// on to `stitch_compiled`, the instance to `stitch_instantiated`.
pub fn stitch_coremark(wasm: &[u8], started: &Instant) -> (r: Result<u32, CoremarkError>)
    ensures
        r matches Err(e) ==> e.runtime == Runtime::Stitch,
        r matches Err(e) ==> e.stage == Stage::Compile || e.stage == Stage::Instantiate || e.stage
            == Stage::FindExport || e.stage == Stage::Execute,
        (r is Err && r->Err_0.stage == Stage::Compile) <==> !stitch_decodes(wasm@),
        r is Ok ==> stitch_exports_func(wasm@, "run"@),
        r is Ok ==> stitch_imports_only(wasm@, "env"@, "clock_ms"@),
        stitch_decodes(wasm@) && !stitch_imports_only(wasm@, "env"@, "clock_ms"@) ==> r is Err
            && r->Err_0.stage == Stage::Instantiate,
        stitch_decodes(wasm@) && !stitch_exports_func(wasm@, "run"@) ==> r is Err && (
        r->Err_0.stage == Stage::Instantiate || r->Err_0.stage == Stage::FindExport),
        r matches Err(e) ==> (e.stage == Stage::FindExport ==> !stitch_exports_func(wasm@, "run"@)),
{
    let linking = open_with_clock("env", "clock_ms", started);
    stitch_compiled(compile(linking, wasm))
}

/// Goes on from the decoding of a module: a failed decoding is a failure at
/// the compile step; the decoded module is instantiated, and started, and
/// the run goes on with `stitch_instantiated`. A module with an import other
/// than the linker's one definition fails at instantiation.
pub fn stitch_compiled(loaded: Result<StitchLoaded, makepad_stitch::DecodeError>) -> (r: Result<
    u32,
    CoremarkError,
>)
    ensures
        r matches Err(e) ==> e.runtime == Runtime::Stitch,
        loaded is Err ==> r is Err && r->Err_0.stage == Stage::Compile,
        loaded is Ok ==> (r matches Err(e) ==> e.stage == Stage::Instantiate || e.stage
            == Stage::FindExport || e.stage == Stage::Execute),
        loaded matches Ok(m) ==> (!stitch_imports_only(m.bytes(), m.defined().0, m.defined().1)
            ==> r is Err && r->Err_0.stage == Stage::Instantiate),
        loaded matches Ok(m) ==> (!stitch_exports_func(m.bytes(), "run"@) ==> r is Err && (
        r->Err_0.stage == Stage::Instantiate || r->Err_0.stage == Stage::FindExport)),
        loaded matches Ok(m) ==> (r is Ok ==> stitch_imports_only(
            m.bytes(),
            m.defined().0,
            m.defined().1,
        ) && stitch_exports_func(m.bytes(), "run"@)),
        loaded matches Ok(m) ==> (r matches Err(e) ==> (e.stage == Stage::FindExport
            ==> !stitch_exports_func(m.bytes(), "run"@))),
{
    match loaded {
        Err(e) => Err(fail_at(Runtime::Stitch, Stage::Compile, describe(&e))),
        Ok(m) => stitch_instantiated(instantiate(m)),
    }
}

/// Goes on from the instantiation of a module: a failed instantiation is a
/// failure at that step. On an instance, the run looks up `run`, and fails
/// at the lookup step exactly when the module exports no function under
/// that name; the function is called with one `f32` result slot, the run
/// fails at the execute step exactly when the call fails, and the `f32`
/// read from the slot is the score.
pub fn stitch_instantiated(instance: Result<StitchInstance, makepad_stitch::Error>) -> (r: Result<
    u32,
    CoremarkError,
>)
    ensures
        r matches Err(e) ==> e.runtime == Runtime::Stitch,
        instance is Err ==> r is Err && r->Err_0.stage == Stage::Instantiate,
        instance matches Ok(i) ==> ((r is Err && r->Err_0.stage == Stage::FindExport)
            <==> !stitch_exports_func(i.bytes(), "run"@)),
        instance is Ok ==> (r matches Err(e) ==> e.stage == Stage::FindExport || e.stage
            == Stage::Execute),
{
    let runtime = Runtime::Stitch;
    let i = match instance {
        Ok(i) => i,
        Err(e) => return Err(fail_at(runtime, Stage::Instantiate, describe(&e))),
    };
    let mut run = match exported_func(i, "run") {
        Some(entry) => entry,
        None => return Err(fail_at(runtime, Stage::FindExport, String::new())),
    };
    match call_for_f32(&mut run) {
        Ok(values) => {
            proof {
                lemma_score_kinds(values@);
            }
            finish_call(runtime, Ok(values))
        },
        Err(e) => Err(fail_at(runtime, Stage::Execute, describe(&e))),
    }
}

} // verus!
