//! The Stitch calls a benchmark run makes. A store travels together with
//! what lives in it in the structs below. Their fields are private to this
//! module, where only the functions below build them, each from one store,
//! so no call here meets a store that does not own what it is handed.
use crate::clock::clock_ms;
use crate::outcome::scalar_kinds;
use crate::outcome::ScalarValue;
use crate::outcome::ValueKind;
use std::time::Instant;
use vstd::prelude::*;

verus! {

#[verifier::external_type_specification]
#[verifier::external_body]
pub struct ExStitchStore(makepad_stitch::Store);

#[verifier::external_type_specification]
#[verifier::external_body]
pub struct ExStitchLinker(makepad_stitch::Linker);

#[verifier::external_type_specification]
#[verifier::external_body]
pub struct ExStitchModule(makepad_stitch::Module);

#[verifier::external_type_specification]
#[verifier::external_body]
pub struct ExStitchInstance(makepad_stitch::Instance);

#[verifier::external_type_specification]
#[verifier::external_body]
pub struct ExStitchFunc(makepad_stitch::Func);

#[verifier::external_type_specification]
#[verifier::external_body]
pub struct ExStitchVal(makepad_stitch::Val);

#[verifier::external_type_specification]
#[verifier::external_body]
pub struct ExStitchError(makepad_stitch::Error);

#[verifier::external_type_specification]
#[verifier::external_body]
pub struct ExStitchDecodeError(makepad_stitch::DecodeError);

/// Whether Stitch's `Module::new` accepts the binary `wasm`: it decodes and
/// validates the bytes alone, as a Stitch engine carries no configuration.
pub uninterp spec fn stitch_decodes(wasm: Seq<u8>) -> bool;

/// Whether the module in the binary `wasm` exports a function as `name`.
pub uninterp spec fn stitch_exports_func(wasm: Seq<u8>, name: Seq<char>) -> bool;

/// Whether every import of the module in the binary `wasm` is the function
/// `module::name`.
pub uninterp spec fn stitch_imports_only(wasm: Seq<u8>, module: Seq<char>, name: Seq<char>) -> bool;

/// A store, and a linker whose definitions live in that store.
pub struct StitchLinking {
    store: makepad_stitch::Store,
    linker: makepad_stitch::Linker,
    defined: Ghost<(Seq<char>, Seq<char>)>,
}

impl StitchLinking {
    /// The one `(module, name)` pair the host functions are defined under.
    pub closed spec fn defined(&self) -> (Seq<char>, Seq<char>) {
        self.defined@
    }
}

/// A store, its linker, and a module decoded from `bytes` on its engine.
pub struct StitchLoaded {
    store: makepad_stitch::Store,
    linker: makepad_stitch::Linker,
    module: makepad_stitch::Module,
    bytes: Ghost<Seq<u8>>,
    defined: Ghost<(Seq<char>, Seq<char>)>,
}

impl StitchLoaded {
    /// The one `(module, name)` pair the linker defines.
    pub closed spec fn defined(&self) -> (Seq<char>, Seq<char>) {
        self.defined@
    }

    /// The binary the module was decoded from.
    pub closed spec fn bytes(&self) -> Seq<u8> {
        self.bytes@
    }
}

/// A store and an instance in it of the module decoded from `bytes`.
pub struct StitchInstance {
    store: makepad_stitch::Store,
    instance: makepad_stitch::Instance,
    bytes: Ghost<Seq<u8>>,
}

impl StitchInstance {
    /// The binary the instance's module was decoded from.
    pub closed spec fn bytes(&self) -> Seq<u8> {
        self.bytes@
    }
}

/// A store and a function in it.
pub struct StitchEntry {
    store: makepad_stitch::Store,
    func: makepad_stitch::Func,
}

/// Calls `Engine::new`, `Store::new` on that engine, `Linker::new`,
/// `Func::wrap` in the new store for a host function that answers with
/// `clock_ms(started)`, and `Linker::define`, defining it as `module::name`.
/// The new linker defines nothing yet, so the definition does not meet the
/// duplicate that `define` asserts against.
#[verifier::external_body]
pub(crate) fn open_with_clock(module: &str, name: &str, started: &Instant) -> (l: StitchLinking)
    ensures
        l.defined() == (module@, name@),
{
    let mut store = makepad_stitch::Store::new(makepad_stitch::Engine::new());
    let mut linker = makepad_stitch::Linker::new();
    let started = *started;
    let clock = makepad_stitch::Func::wrap(&mut store, move || clock_ms(&started));
    linker.define(module, name, clock);
    StitchLinking { store, linker, defined: Ghost((module@, name@)) }
}

/// Calls `Module::new` on the engine of `l`'s store: decodes and validates
/// the Wasm binary `wasm`, and succeeds exactly when Stitch accepts it.
#[verifier::external_body]
pub(crate) fn compile(l: StitchLinking, wasm: &[u8]) -> (r: Result<
    StitchLoaded,
    makepad_stitch::DecodeError,
>)
    ensures
        r is Ok <==> stitch_decodes(wasm@),
        r matches Ok(m) ==> m.bytes() == wasm@ && m.defined() == l.defined(),
{
    match makepad_stitch::Module::new(l.store.engine(), wasm) {
        Ok(module) => Ok(
            StitchLoaded { store: l.store, linker: l.linker, module, bytes: Ghost(wasm@), defined: l.defined },
        ),
        Err(e) => Err(e),
    }
}

/// Calls `Linker::instantiate`: links the module against the linker's
/// definitions, all in the store, and runs its start function.
#[verifier::external_body]
pub(crate) fn instantiate(m: StitchLoaded) -> (r: Result<StitchInstance, makepad_stitch::Error>)
    ensures
        r matches Ok(i) ==> i.bytes() == m.bytes(),
        r is Ok ==> stitch_imports_only(m.bytes(), m.defined().0, m.defined().1),
{
    let mut store = m.store;
    match m.linker.instantiate(&mut store, &m.module) {
        Ok(instance) => Ok(StitchInstance { store, instance, bytes: m.bytes }),
        Err(e) => Err(e),
    }
}

/// Calls `Instance::exported_func`: the function exported as `name`, which
/// exists exactly when the module exports a function under that name.
#[verifier::external_body]
pub(crate) fn exported_func(i: StitchInstance, name: &str) -> (r: Option<StitchEntry>)
    ensures
        r is Some <==> stitch_exports_func(i.bytes(), name@),
{
    match i.instance.exported_func(name) {
        Some(func) => Some(StitchEntry { store: i.store, func }),
        None => None,
    }
}

/// Calls `Func::call` with the function's own store, no arguments and one
/// result slot, `Val::default` of type `f32`, and hands the slot back as
/// plain values; floats keep their bits. Stitch reads the result as the
/// type of the slot it lands in, so it comes back as an `f32`. The call
/// fails when the function does not have one result or when it traps.
#[verifier::external_body]
pub(crate) fn call_for_f32(e: &mut StitchEntry) -> (r: Result<Vec<ScalarValue>, makepad_stitch::Error>)
    ensures
        r matches Ok(v) ==> scalar_kinds(v@) == seq![ValueKind::F32],
{
    let mut results = [makepad_stitch::Val::default(makepad_stitch::ValType::F32)];
    match e.func.call(&mut e.store, &[], &mut results) {
        Ok(()) => Ok(results.iter().map(|v| match v {
            makepad_stitch::Val::I32(x) => ScalarValue::I32(*x),
            makepad_stitch::Val::I64(x) => ScalarValue::I64(*x),
            makepad_stitch::Val::F32(x) => ScalarValue::F32(x.to_bits()),
            makepad_stitch::Val::F64(x) => ScalarValue::F64(x.to_bits()),
            _ => ScalarValue::Other,
        }).collect()),
        Err(err) => Err(err),
    }
}

} // verus!
