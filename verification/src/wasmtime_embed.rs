//! The Wasmtime calls a benchmark run makes. A store travels together with
//! what lives in it in the structs below. Their fields are private to this
//! module, where only the functions below build them, each from one engine
//! and one store, so no call here meets a store or engine that does not own
//! what it is handed.
use crate::clock::clock_ms;
use crate::outcome::scalar_kinds;
use crate::outcome::ScalarValue;
use crate::outcome::ValueKind;
use crate::wasmtime_runner::CompilerStrategy;
use std::time::Instant;
use vstd::prelude::*;

verus! {

#[verifier::external_type_specification]
#[verifier::external_body]
pub struct ExWasmtimeConfig(wasmtime::Config);

#[verifier::external_type_specification]
#[verifier::external_body]
pub struct ExWasmtimeEngine(wasmtime::Engine);

#[verifier::external_type_specification]
#[verifier::external_body]
#[verifier::reject_recursive_types(T)]
pub struct ExWasmtimeStore<T: 'static>(wasmtime::Store<T>);

#[verifier::external_type_specification]
#[verifier::external_body]
#[verifier::reject_recursive_types(T)]
pub struct ExWasmtimeLinker<T>(wasmtime::Linker<T>);

#[verifier::external_type_specification]
#[verifier::external_body]
pub struct ExWasmtimeModule(wasmtime::Module);

#[verifier::external_type_specification]
#[verifier::external_body]
pub struct ExWasmtimeInstance(wasmtime::Instance);

#[verifier::external_type_specification]
#[verifier::external_body]
pub struct ExWasmtimeFunc(wasmtime::Func);

#[verifier::external_type_specification]
#[verifier::external_body]
pub struct ExWasmtimeVal(wasmtime::Val);

#[verifier::external_type_specification]
#[verifier::external_body]
pub struct ExWasmtimeError(wasmtime::Error);

/// The signature of the function that the module in the binary `wasm`
/// exports as `name`, as the kinds of its parameters and of its results
/// (vectors and references counting as `Other`); `None` when the module
/// exports no function under that name.
pub uninterp spec fn wasmtime_export_type(wasm: Seq<u8>, name: Seq<char>) -> Option<
    (Seq<ValueKind>, Seq<ValueKind>),
>;

/// Whether `Module::new` accepts the binary `wasm` on an engine built from a
/// default configuration given the target `pulley64`: Cranelift then
/// compiles to Pulley bytecode, which does not depend on the host.
pub uninterp spec fn wasmtime_pulley_compiles(wasm: Seq<u8>) -> bool;

/// Whether `Config::target` accepts the target triple `target`; it parses
/// the text alone.
pub uninterp spec fn wasmtime_parses_target(target: Seq<char>) -> bool;

/// A configuration, with the strategy and target it was given.
pub struct WasmtimeSetup {
    config: wasmtime::Config,
    strategy: Ghost<CompilerStrategy>,
    target: Ghost<Option<Seq<char>>>,
}

impl WasmtimeSetup {
    /// The code generator the configuration names.
    pub closed spec fn strategy(&self) -> CompilerStrategy {
        self.strategy@
    }

    /// The target triple the configuration names; `None` for the host.
    pub closed spec fn target(&self) -> Option<Seq<char>> {
        self.target@
    }
}

/// An engine, with the strategy and target it was configured with.
pub struct WasmtimeEngine {
    engine: wasmtime::Engine,
    strategy: Ghost<CompilerStrategy>,
    target: Ghost<Option<Seq<char>>>,
}

impl WasmtimeEngine {
    /// The code generator the engine compiles with.
    pub closed spec fn strategy(&self) -> CompilerStrategy {
        self.strategy@
    }

    /// The target triple the engine compiles for; `None` for the host.
    pub closed spec fn target(&self) -> Option<Seq<char>> {
        self.target@
    }
}

/// Whether every import of the module in the binary `wasm` is the function
/// `module::name`.
pub uninterp spec fn wasmtime_imports_only(wasm: Seq<u8>, module: Seq<char>, name: Seq<char>) -> bool;

/// A store, and a linker on the store's engine, with the engine's target.
pub struct WasmtimeLinking {
    store: wasmtime::Store<()>,
    linker: wasmtime::Linker<()>,
    target: Ghost<Option<Seq<char>>>,
    defined: Ghost<(Seq<char>, Seq<char>)>,
}

impl WasmtimeLinking {
    /// The target triple the store's engine compiles for; `None` for the host.
    pub closed spec fn target(&self) -> Option<Seq<char>> {
        self.target@
    }

    /// The one `(module, name)` pair the host functions are defined under.
    pub closed spec fn defined(&self) -> (Seq<char>, Seq<char>) {
        self.defined@
    }
}

/// A store, its linker, and a module compiled on their engine from `bytes`.
pub struct WasmtimeLoaded {
    store: wasmtime::Store<()>,
    linker: wasmtime::Linker<()>,
    module: wasmtime::Module,
    bytes: Ghost<Seq<u8>>,
    defined: Ghost<(Seq<char>, Seq<char>)>,
}

impl WasmtimeLoaded {
    /// The one `(module, name)` pair the linker defines.
    pub closed spec fn defined(&self) -> (Seq<char>, Seq<char>) {
        self.defined@
    }

    /// The binary the module was compiled from.
    pub closed spec fn bytes(&self) -> Seq<u8> {
        self.bytes@
    }
}

/// A store and an instance in it of the module compiled from `bytes`.
pub struct WasmtimeInstance {
    store: wasmtime::Store<()>,
    instance: wasmtime::Instance,
    bytes: Ghost<Seq<u8>>,
}

impl WasmtimeInstance {
    /// The binary the instance's module was compiled from.
    pub closed spec fn bytes(&self) -> Seq<u8> {
        self.bytes@
    }
}

/// A store and a function in it, with the function's signature.
pub struct WasmtimeEntry {
    store: wasmtime::Store<()>,
    func: wasmtime::Func,
    sig: Ghost<(Seq<ValueKind>, Seq<ValueKind>)>,
}

impl WasmtimeEntry {
    /// The kinds of the function's parameters and of its results.
    pub closed spec fn sig(&self) -> (Seq<ValueKind>, Seq<ValueKind>) {
        self.sig@
    }
}

/// Calls `Config::default`, and `Config::strategy` on it with the Wasmtime
/// strategy named by `s`. A default configuration has its compiler enabled,
/// so `strategy` does not meet the disabled compiler it panics on.
#[verifier::external_body]
pub(crate) fn config_for(s: CompilerStrategy) -> (c: WasmtimeSetup)
    ensures
        c.strategy() == s,
        c.target() == None::<Seq<char>>,
{
    let mut config = wasmtime::Config::default();
    config.strategy(match s {
        CompilerStrategy::Cranelift => wasmtime::Strategy::Cranelift,
        CompilerStrategy::Winch => wasmtime::Strategy::Winch,
    });
    WasmtimeSetup { config, strategy: Ghost(s), target: Ghost(None) }
}

/// Calls `Config::target` with the triple `target`. It succeeds exactly
/// when the triple parses, as `pulley64` does, and then the configuration
/// names it; on a failure the configuration is left as it was.
#[verifier::external_body]
pub(crate) fn config_target(setup: &mut WasmtimeSetup, target: &str) -> (r: Result<(), wasmtime::Error>)
    ensures
        r is Ok <==> wasmtime_parses_target(target@),
        target@ == "pulley64"@ ==> r is Ok,
        final(setup).strategy() == old(setup).strategy(),
        r is Ok ==> final(setup).target() == Some(target@),
        r is Err ==> final(setup).target() == old(setup).target(),
{
    match setup.config.target(target) {
        Ok(_) => {
            setup.target = Ghost(Some(target@));
            Ok(())
        },
        Err(e) => Err(e),
    }
}

/// Calls `Engine::new` on the configuration of `setup`; the engine compiles
/// with the strategy and for the target the configuration names.
#[verifier::external_body]
pub(crate) fn engine_new(setup: &WasmtimeSetup) -> (r: Result<WasmtimeEngine, wasmtime::Error>)
    ensures
        r matches Ok(e) ==> e.strategy() == setup.strategy() && e.target() == setup.target(),
{
    match wasmtime::Engine::new(&setup.config) {
        Ok(engine) => Ok(WasmtimeEngine { engine, strategy: setup.strategy, target: setup.target }),
        Err(e) => Err(e),
    }
}

/// Calls `Store::new` and `Linker::new` on `engine`, and `Linker::func_wrap`
/// on the new linker, defining `module::name` as a host function that
/// answers with `clock_ms(started)`.
#[verifier::external_body]
pub(crate) fn open_with_clock(
    engine: &WasmtimeEngine,
    module: &str,
    name: &str,
    started: &Instant,
) -> (r: Result<WasmtimeLinking, wasmtime::Error>)
    ensures
        r matches Ok(l) ==> l.defined() == (module@, name@) && l.target() == engine.target(),
{
    let store = wasmtime::Store::new(&engine.engine, ());
    let mut linker = wasmtime::Linker::new(&engine.engine);
    let started = *started;
    match linker.func_wrap(module, name, move || clock_ms(&started)) {
        Ok(_) => Ok(
            WasmtimeLinking { store, linker, target: engine.target, defined: Ghost((module@, name@)) },
        ),
        Err(e) => Err(e),
    }
}

/// Calls `Module::new` on the engine of `l`'s store: compiles and validates
/// the Wasm binary `wasm`.
#[verifier::external_body]
pub(crate) fn compile(l: WasmtimeLinking, wasm: &[u8]) -> (r: Result<WasmtimeLoaded, wasmtime::Error>)
    ensures
        r matches Ok(m) ==> m.bytes() == wasm@ && m.defined() == l.defined(),
        l.target() == Some("pulley64"@) ==> (r is Ok <==> wasmtime_pulley_compiles(wasm@)),
{
    match wasmtime::Module::new(l.store.engine(), wasm) {
        Ok(module) => Ok(
            WasmtimeLoaded { store: l.store, linker: l.linker, module, bytes: Ghost(wasm@), defined: l.defined },
        ),
        Err(e) => Err(e),
    }
}

/// Calls `Linker::instantiate`: links the module against the linker's
/// definitions in the store, whose engine the linker shares, and runs its
/// start function.
#[verifier::external_body]
pub(crate) fn instantiate(m: WasmtimeLoaded) -> (r: Result<WasmtimeInstance, wasmtime::Error>)
    ensures
        r matches Ok(i) ==> i.bytes() == m.bytes(),
        r is Ok ==> wasmtime_imports_only(m.bytes(), m.defined().0, m.defined().1),
{
    let mut store = m.store;
    match m.linker.instantiate(&mut store, &m.module) {
        Ok(instance) => Ok(WasmtimeInstance { store, instance, bytes: m.bytes }),
        Err(e) => Err(e),
    }
}

/// Calls `Instance::get_func` with the instance's own store: the function
/// exported as `name`, which exists exactly when the module exports a
/// function under that name, and has the signature the module gives it.
#[verifier::external_body]
pub(crate) fn get_func(i: WasmtimeInstance, name: &str) -> (r: Option<WasmtimeEntry>)
    ensures
        r is Some <==> wasmtime_export_type(i.bytes(), name@) is Some,
        r matches Some(e) ==> wasmtime_export_type(i.bytes(), name@) == Some(e.sig()),
{
    let mut store = i.store;
    match i.instance.get_func(&mut store, name) {
        Some(func) => Some(WasmtimeEntry {
            store,
            func,
            sig: Ghost(wasmtime_export_type(i.bytes@, name@).unwrap()),
        }),
        None => None,
    }
}

/// Calls `Func::ty` with the function's own store, and gives the kinds of
/// its parameters and of its results.
#[verifier::external_body]
pub(crate) fn signature(e: &WasmtimeEntry) -> (r: (Vec<ValueKind>, Vec<ValueKind>))
    ensures
        (r.0@, r.1@) == e.sig(),
{
    let ty = e.func.ty(&e.store);
    let kind = |t: wasmtime::ValType| match t {
        wasmtime::ValType::I32 => ValueKind::I32,
        wasmtime::ValType::I64 => ValueKind::I64,
        wasmtime::ValType::F32 => ValueKind::F32,
        wasmtime::ValType::F64 => ValueKind::F64,
        _ => ValueKind::Other,
    };
    (ty.params().map(kind).collect(), ty.results().map(kind).collect())
}

/// Calls `Func::call` with the function's own store, no arguments and room
/// for as many results as its signature has, and hands the results back as
/// plain values; floats keep their bits. `Func::call` writes each result as
/// the kind its signature gives it. It fails when the function traps.
#[verifier::external_body]
pub(crate) fn call(e: &mut WasmtimeEntry, result_count: usize) -> (r: Result<
    Vec<ScalarValue>,
    wasmtime::Error,
>)
    requires
        result_count == old(e).sig().1.len(),
    ensures
        final(e).sig() == old(e).sig(),
        r matches Ok(v) ==> scalar_kinds(v@) == old(e).sig().1,
{
    let mut results = vec![wasmtime::Val::I32(0); result_count];
    match e.func.call(&mut e.store, &[], &mut results) {
        Ok(()) => Ok(results.iter().map(|v| match v {
            wasmtime::Val::I32(x) => ScalarValue::I32(*x),
            wasmtime::Val::I64(x) => ScalarValue::I64(*x),
            wasmtime::Val::F32(bits) => ScalarValue::F32(*bits),
            wasmtime::Val::F64(bits) => ScalarValue::F64(*bits),
            _ => ScalarValue::Other,
        }).collect()),
        Err(err) => Err(err),
    }
}

/// Calls `Error::chain` on `e` and gives the text each cause displays,
/// outermost first. What the texts hold is up to Wasmtime, so nothing is
/// stated of them.
#[verifier::external_body]
pub(crate) fn error_chain(e: &wasmtime::Error) -> (causes: Vec<String>) {
    e.chain().map(|c| c.to_string()).collect()
}

} // verus!
