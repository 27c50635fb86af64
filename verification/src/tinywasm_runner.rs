//! The benchmark on the Tinywasm interpreter.
use crate::cli::Runtime;
use crate::outcome::describe;
use crate::outcome::fail_at;
use crate::outcome::finish_call;
use crate::outcome::is_score_signature;
use crate::outcome::score_signature_spec;
use crate::outcome::ValueKind;
use crate::outcome::CoremarkError;
use crate::outcome::lemma_score_kinds;
use crate::outcome::Stage;
use crate::tinywasm_embed::call;
use crate::tinywasm_embed::func;
use crate::tinywasm_embed::instantiate;
use crate::tinywasm_embed::open_with_clock;
use crate::tinywasm_embed::parse_bytes;
use crate::tinywasm_embed::tinywasm_exports_func;
use crate::tinywasm_embed::tinywasm_imports_only;
use crate::tinywasm_embed::tinywasm_parses;
use crate::tinywasm_embed::export_view;
use crate::tinywasm_embed::module_exports;
use crate::tinywasm_embed::tinywasm_exports;
use crate::tinywasm_embed::TinywasmInstance;
use crate::tinywasm_embed::TinywasmLinking;
use crate::tinywasm_embed::TinywasmModule;
use std::time::Instant;
use vstd::prelude::*;

verus! {

/// The signature of the first export named `name` in `exports`, when that
/// export is a function; `None` when there is no such export or it is not a
/// function.
pub open spec fn export_signature(
    exports: Seq<(Seq<char>, Option<(Seq<ValueKind>, Seq<ValueKind>)>)>,
    name: Seq<char>,
) -> Option<(Seq<ValueKind>, Seq<ValueKind>)>
    decreases exports.len(),
{
    if exports.len() == 0 {
        None
    } else if exports[0].0 == name {
        exports[0].1
    } else {
        export_signature(exports.drop_first(), name)
    }
}

/// The signature of the function the module in the binary `wasm` exports as
/// `name`, as Tinywasm lists the module's exports.
pub open spec fn tinywasm_export_signature(wasm: Seq<u8>, name: Seq<char>) -> Option<
    (Seq<ValueKind>, Seq<ValueKind>),
> {
    export_signature(tinywasm_exports(wasm), name)
}

/// Whether the first export named `name` among `exports` is a function of
/// type `() -> f32`.
pub fn exports_score_function(
    exports: &Vec<(String, Option<(Vec<ValueKind>, Vec<ValueKind>)>)>,
    name: &str,
) -> (b: bool)
    ensures
        b == (export_signature(
            exports@.map_values(
                |e: (String, Option<(Vec<ValueKind>, Vec<ValueKind>)>)| export_view(e),
            ),
            name@,
        ) == Some(score_signature_spec())),
{
    let ghost v = exports@.map_values(
        |e: (String, Option<(Vec<ValueKind>, Vec<ValueKind>)>)| export_view(e),
    );
    let wanted: String = name.to_owned();
    let mut i: usize = 0;
    assert(v.skip(0) =~= v);
    while i < exports.len()
        invariant
            i <= exports.len(),
            v == exports@.map_values(
                |e: (String, Option<(Vec<ValueKind>, Vec<ValueKind>)>)| export_view(e),
            ),
            wanted@ == name@,
            export_signature(v, name@) == export_signature(v.skip(i as int), name@),
        decreases exports.len() - i,
    {
        proof {
            assert(v.skip(i as int).drop_first() =~= v.skip(i as int + 1));
            assert(v.skip(i as int)[0] == v[i as int]);
        }
        if exports[i].0 == wanted {
            return match &exports[i].1 {
                Some(sig) => is_score_signature(&sig.0, &sig.1),
                None => false,
            };
        }
        i = i + 1;
    }
    proof {
        assert(v.skip(i as int).len() == 0);
    }
    false
}

/// Runs the benchmark's `run` export on Tinywasm and gives back the bits of
/// the `f32` score, or the step that failed. The host function
/// `env::clock_ms` counts from `started`. Defining the clock cannot fail;
/// the run stops at the parse step exactly when Tinywasm rejects `wasm`. A
/// parsed module with an import other than `env::clock_ms` fails at
/// instantiation; a score comes only from a module that exports `run` as a
/// function of type `() -> f32`, a module without such a `run` fails at
/// instantiation or at the lookup step, and `run` is called, and so can
/// fail, only when it has that type; its `f32` result is the score. The
/// parsed module goes on to `tinywasm_parsed`.
pub fn tinywasm_coremark(wasm: &[u8], started: &Instant) -> (r: Result<u32, CoremarkError>)
    ensures
        r matches Err(e) ==> e.runtime == Runtime::Tinywasm,
        r matches Err(e) ==> e.stage == Stage::Compile || e.stage == Stage::Instantiate || e.stage
            == Stage::FindExport || e.stage == Stage::Execute,
        (r is Err && r->Err_0.stage == Stage::Compile) <==> !tinywasm_parses(wasm@),
        r is Ok ==> tinywasm_exports_func(wasm@, "run"@),
        r is Ok ==> tinywasm_export_signature(wasm@, "run"@) == Some(score_signature_spec()),
        r is Ok ==> tinywasm_imports_only(wasm@, "env"@, "clock_ms"@),
        tinywasm_parses(wasm@) && !tinywasm_imports_only(wasm@, "env"@, "clock_ms"@) ==> r is Err
            && r->Err_0.stage == Stage::Instantiate,
        tinywasm_parses(wasm@) && (!tinywasm_exports_func(wasm@, "run"@)
            || tinywasm_export_signature(wasm@, "run"@) != Some(score_signature_spec())) ==> r is Err
            && (r->Err_0.stage == Stage::Instantiate || r->Err_0.stage == Stage::FindExport),
        r matches Err(e) ==> (e.stage == Stage::FindExport ==> !tinywasm_exports_func(wasm@, "run"@)
            || tinywasm_export_signature(wasm@, "run"@) != Some(score_signature_spec())),
        r matches Err(e) ==> (e.stage == Stage::Execute ==> tinywasm_export_signature(wasm@, "run"@)
            == Some(score_signature_spec())),
{
    let linking = open_with_clock("env", "clock_ms", started);
    tinywasm_parsed(linking, parse_bytes(wasm))
}

/// Goes on from the parse of a module: a failed parse is a failure at the
/// compile step. The signature of the parsed module's first export named
/// `run` is checked, the module is instantiated against `linking`, and
/// started, and the run goes on with `tinywasm_instantiated`. A module with
/// an import other than the one definition of `linking` fails at
/// instantiation.
pub fn tinywasm_parsed(
    linking: TinywasmLinking,
    parsed: Result<TinywasmModule, tinywasm::ParseError>,
) -> (r: Result<u32, CoremarkError>)
    ensures
        r matches Err(e) ==> e.runtime == Runtime::Tinywasm,
        parsed is Err ==> r is Err && r->Err_0.stage == Stage::Compile,
        parsed is Ok ==> (r matches Err(e) ==> e.stage == Stage::Instantiate || e.stage
            == Stage::FindExport || e.stage == Stage::Execute),
        parsed matches Ok(m) ==> (!tinywasm_imports_only(
            m.bytes(),
            linking.defined().0,
            linking.defined().1,
        ) ==> r is Err && r->Err_0.stage == Stage::Instantiate),
        parsed matches Ok(m) ==> (!tinywasm_exports_func(m.bytes(), "run"@)
            || tinywasm_export_signature(m.bytes(), "run"@) != Some(score_signature_spec()) ==> r is Err
            && (r->Err_0.stage == Stage::Instantiate || r->Err_0.stage == Stage::FindExport)),
        parsed matches Ok(m) ==> (r is Ok ==> tinywasm_imports_only(
            m.bytes(),
            linking.defined().0,
            linking.defined().1,
        ) && tinywasm_exports_func(m.bytes(), "run"@) && tinywasm_export_signature(m.bytes(), "run"@)
            == Some(score_signature_spec())),
        parsed matches Ok(m) ==> (r matches Err(e) ==> (e.stage == Stage::FindExport
            ==> !tinywasm_exports_func(m.bytes(), "run"@) || tinywasm_export_signature(
            m.bytes(),
            "run"@,
        ) != Some(score_signature_spec()))),
        parsed matches Ok(m) ==> (r matches Err(e) ==> (e.stage == Stage::Execute
            ==> tinywasm_export_signature(m.bytes(), "run"@) == Some(score_signature_spec()))),
{
    match parsed {
        Err(e) => Err(fail_at(Runtime::Tinywasm, Stage::Compile, describe(&e))),
        Ok(m) => {
            let typed = exports_score_function(&module_exports(&m), "run");
            tinywasm_instantiated(instantiate(linking, &m), typed)
        },
    }
}

/// Goes on from the instantiation of a module: a failed instantiation is a
/// failure at that step. On an instance, the run looks up `run`, and fails
/// at the lookup step exactly when the module exports no function under
/// that name or, as `typed` tells, not one of type `() -> f32`; such a
/// function is called, and what the call gave back is read by
/// `finish_call`. When `typed` tells truly whether the module's first export
/// named `run` has that type, the result is then that `f32`, and the run
/// fails at the execute step only when the call fails.
pub fn tinywasm_instantiated(instance: Result<TinywasmInstance, tinywasm::Error>, typed: bool) -> (r:
    Result<u32, CoremarkError>)
    ensures
        r matches Err(e) ==> e.runtime == Runtime::Tinywasm,
        instance is Err ==> r is Err && r->Err_0.stage == Stage::Instantiate,
        instance matches Ok(i) ==> ((r is Err && r->Err_0.stage == Stage::FindExport) <==> (
        !tinywasm_exports_func(i.bytes(), "run"@) || !typed)),
        instance is Ok ==> (r matches Err(e) ==> e.stage == Stage::FindExport || e.stage
            == Stage::Execute || e.stage == Stage::UnexpectedResult),
        instance matches Ok(i) ==> (typed == (tinywasm_export_signature(i.bytes(), "run"@) == Some(
            score_signature_spec(),
        )) ==> (r matches Err(e) ==> e.stage == Stage::FindExport || e.stage == Stage::Execute)),
{
    let runtime = Runtime::Tinywasm;
    let i = match instance {
        Ok(i) => i,
        Err(e) => return Err(fail_at(runtime, Stage::Instantiate, describe(&e))),
    };
    let ghost bytes = i.bytes();
    let mut run = match func(i, "run") {
        Ok(entry) => entry,
        Err(e) => return Err(fail_at(runtime, Stage::FindExport, describe(&e))),
    };
    if !typed {
        return Err(fail_at(runtime, Stage::FindExport, String::new()));
    }
    match call(&mut run) {
        Ok(values) => {
            proof {
                if tinywasm_export_signature(bytes, "run"@) == Some(score_signature_spec()) {
                    lemma_score_kinds(values@);
                }
            }
            finish_call(runtime, Ok(values))
        },
        Err(e) => Err(fail_at(runtime, Stage::Execute, describe(&e))),
    }
}

} // verus!
