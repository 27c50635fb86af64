//! The Wasmi calls a benchmark run makes. A store travels together with
//! what lives in it in the structs below. Their fields are private to this
//! module, where only the functions below build them, each from one store,
//! so no call here meets a store that does not own what it is handed.
use crate::clock::clock_ms;
use std::time::Instant;
use vstd::prelude::*;

verus! {

#[verifier::external_type_specification]
#[verifier::external_body]
#[verifier::reject_recursive_types(T)]
pub struct ExWasmiStore<T>(wasmi::Store<T>);

#[verifier::external_type_specification]
#[verifier::external_body]
#[verifier::reject_recursive_types(T)]
pub struct ExWasmiLinker<T>(wasmi::Linker<T>);

#[verifier::external_type_specification]
#[verifier::external_body]
pub struct ExWasmiModule(wasmi::Module);

#[verifier::external_type_specification]
#[verifier::external_body]
pub struct ExWasmiInstance(wasmi::Instance);

#[verifier::external_type_specification]
#[verifier::external_body]
#[verifier::reject_recursive_types(Params)]
#[verifier::reject_recursive_types(Results)]
pub struct ExWasmiTypedFunc<Params, Results>(wasmi::TypedFunc<Params, Results>);

#[verifier::external_type_specification]
#[verifier::external_body]
pub struct ExWasmiF32(wasmi::F32);

#[verifier::external_type_specification]
#[verifier::external_body]
pub struct ExWasmiError(wasmi::Error);

#[verifier::external_type_specification]
#[verifier::external_body]
pub struct ExWasmiLinkerError(wasmi::errors::LinkerError);

/// Whether Wasmi's `Module::new` accepts the binary `wasm` on an engine with
/// the default configuration, the only engine this module makes; Wasmi
/// decides it from the bytes and that configuration alone.
pub uninterp spec fn wasmi_compiles(wasm: Seq<u8>) -> bool;

/// Whether the module in the binary `wasm` exports under `name` a function
/// of type `() -> f32`, which is what `Instance::get_typed_func::<(), F32>`
/// accepts: the export exists, is a function, has no parameters and has one
/// `f32` result.
pub uninterp spec fn wasmi_typed_export(wasm: Seq<u8>, name: Seq<char>) -> bool;

/// Whether every import of the module in the binary `wasm` is the function
/// `module::name`.
pub uninterp spec fn wasmi_imports_only(wasm: Seq<u8>, module: Seq<char>, name: Seq<char>) -> bool;

/// A store on a default engine, with a linker on the same engine.
pub struct WasmiLinking {
    store: wasmi::Store<()>,
    linker: wasmi::Linker<()>,
    defined: Ghost<(Seq<char>, Seq<char>)>,
}

impl WasmiLinking {
    /// The one `(module, name)` pair the host functions are defined under.
    pub closed spec fn defined(&self) -> (Seq<char>, Seq<char>) {
        self.defined@
    }
}

/// A store, a linker and a module compiled on their engine from `bytes`.
pub struct WasmiLoaded {
    store: wasmi::Store<()>,
    linker: wasmi::Linker<()>,
    module: wasmi::Module,
    bytes: Ghost<Seq<u8>>,
    defined: Ghost<(Seq<char>, Seq<char>)>,
}

impl WasmiLoaded {
    /// The one `(module, name)` pair the linker defines.
    pub closed spec fn defined(&self) -> (Seq<char>, Seq<char>) {
        self.defined@
    }

    /// The binary the module was compiled from.
    pub closed spec fn bytes(&self) -> Seq<u8> {
        self.bytes@
    }
}

/// A store and an instance in it of the module compiled from `bytes`.
pub struct WasmiInstance {
    store: wasmi::Store<()>,
    instance: wasmi::Instance,
    bytes: Ghost<Seq<u8>>,
}

impl WasmiInstance {
    /// The binary the instance's module was compiled from.
    pub closed spec fn bytes(&self) -> Seq<u8> {
        self.bytes@
    }
}

/// A store and a function in it of type `() -> f32`.
pub struct WasmiRun {
    store: wasmi::Store<()>,
    func: wasmi::TypedFunc<(), wasmi::F32>,
}

/// Calls `Store::default`, `Linker::new` on that store's engine, and
/// `Linker::func_wrap` on the new linker, defining `module::name` as a host
/// function that answers with `clock_ms(started)`. On a new linker no name
/// is defined yet, and `func_wrap` fails only on a name defined before, so
/// this always succeeds.
#[verifier::external_body]
pub(crate) fn open_with_clock(module: &str, name: &str, started: &Instant) -> (r: Result<
    WasmiLinking,
    wasmi::errors::LinkerError,
>)
    ensures
        r is Ok,
        r matches Ok(l) ==> l.defined() == (module@, name@),
{
    let store = wasmi::Store::default();
    let mut linker = wasmi::Linker::new(store.engine());
    let started = *started;
    match linker.func_wrap(module, name, move || clock_ms(&started)) {
        Ok(_) => Ok(WasmiLinking { store, linker, defined: Ghost((module@, name@)) }),
        Err(e) => Err(e),
    }
}

/// Calls `Module::new` on the engine of `l`'s store: parses, validates and
/// translates the Wasm binary `wasm`, and succeeds exactly when Wasmi
/// accepts it.
#[verifier::external_body]
pub(crate) fn compile(l: WasmiLinking, wasm: &[u8]) -> (r: Result<WasmiLoaded, wasmi::Error>)
    ensures
        r is Ok <==> wasmi_compiles(wasm@),
        r matches Ok(m) ==> m.bytes() == wasm@ && m.defined() == l.defined(),
{
    match wasmi::Module::new(l.store.engine(), wasm) {
        Ok(module) => Ok(
            WasmiLoaded { store: l.store, linker: l.linker, module, bytes: Ghost(wasm@), defined: l.defined },
        ),
        Err(e) => Err(e),
    }
}

/// Calls `Linker::instantiate_and_start`: links the module against the
/// linker's definitions in the store, whose engine the linker shares, and
/// runs its start function.
#[verifier::external_body]
pub(crate) fn instantiate(m: WasmiLoaded) -> (r: Result<WasmiInstance, wasmi::Error>)
    ensures
        r matches Ok(i) ==> i.bytes() == m.bytes(),
        r is Ok ==> wasmi_imports_only(m.bytes(), m.defined().0, m.defined().1),
{
    let mut store = m.store;
    match m.linker.instantiate_and_start(&mut store, &m.module) {
        Ok(instance) => Ok(WasmiInstance { store, instance, bytes: m.bytes }),
        Err(e) => Err(e),
    }
}

/// Calls `Instance::get_typed_func::<(), F32>` with the instance's own
/// store: the function exported as `name`, typed `() -> f32`, which exists
/// exactly when the module exports a function of that type under that name.
#[verifier::external_body]
pub(crate) fn get_score_func(i: WasmiInstance, name: &str) -> (r: Result<WasmiRun, wasmi::Error>)
    ensures
        r is Ok <==> wasmi_typed_export(i.bytes(), name@),
{
    match i.instance.get_typed_func::<(), wasmi::F32>(&i.store, name) {
        Ok(func) => Ok(WasmiRun { store: i.store, func }),
        Err(e) => Err(e),
    }
}

/// Calls `TypedFunc::call` with the function's own store and no arguments,
/// and gives back the bits of the `f32` it returns. It fails when the
/// function traps.
#[verifier::external_body]
pub(crate) fn call_score(e: &mut WasmiRun) -> (r: Result<u32, wasmi::Error>) {
    match e.func.call(&mut e.store, ()) {
        Ok(x) => Ok(x.to_bits()),
        Err(err) => Err(err),
    }
}

} // verus!
