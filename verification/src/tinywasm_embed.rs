//! The Tinywasm calls a benchmark run makes. A store travels together with
//! what lives in it in the structs below. Their fields are private to this
//! module, where only the functions below build them, each from one store.
use crate::clock::clock_ms_i32;
use crate::outcome::scalar_kinds;
use crate::outcome::ScalarValue;
use crate::tinywasm_runner::export_signature;
use crate::outcome::ValueKind;
use tinywasm::types::ExportType;
use tinywasm::types::WasmType;
use std::time::Instant;
use vstd::prelude::*;

verus! {

#[verifier::external_type_specification]
#[verifier::external_body]
pub struct ExTinywasmStore(tinywasm::Store);

#[verifier::external_type_specification]
#[verifier::external_body]
pub struct ExTinywasmImports(tinywasm::Imports);

#[verifier::external_type_specification]
#[verifier::external_body]
pub struct ExTinywasmModule(tinywasm::Module);

#[verifier::external_type_specification]
#[verifier::external_body]
pub struct ExTinywasmModuleInstance(tinywasm::ModuleInstance);

#[verifier::external_type_specification]
#[verifier::external_body]
pub struct ExTinywasmFunction(tinywasm::Function);

#[verifier::external_type_specification]
#[verifier::external_body]
pub struct ExTinywasmValue(tinywasm::types::WasmValue);

#[verifier::external_type_specification]
#[verifier::external_body]
pub struct ExTinywasmError(tinywasm::Error);

#[verifier::external_type_specification]
#[verifier::external_body]
pub struct ExTinywasmParseError(tinywasm::ParseError);

/// Whether Tinywasm's `parse_bytes` accepts the binary `wasm`, which it
/// decides from the bytes alone.
pub uninterp spec fn tinywasm_parses(wasm: Seq<u8>) -> bool;

/// Whether the module in the binary `wasm` exports a function as `name`.
pub uninterp spec fn tinywasm_exports_func(wasm: Seq<u8>, name: Seq<char>) -> bool;

/// Whether every import of the module in the binary `wasm` is the function
/// `module::name`.
pub uninterp spec fn tinywasm_imports_only(wasm: Seq<u8>, module: Seq<char>, name: Seq<char>) -> bool;

/// What `Module::exports` yields for the module parsed from the binary
/// `wasm`: each export's name, in the order of the export section, with
/// the kinds of the parameters and of the results when the export is a
/// function (vectors and references counting as `Other`).
pub uninterp spec fn tinywasm_exports(wasm: Seq<u8>) -> Seq<
    (Seq<char>, Option<(Seq<ValueKind>, Seq<ValueKind>)>),
>;

/// An export as a name and, for a function, its signature, taken by views.
pub open spec fn export_view(e: (String, Option<(Vec<ValueKind>, Vec<ValueKind>)>)) -> (
    Seq<char>,
    Option<(Seq<ValueKind>, Seq<ValueKind>)>,
) {
    (
        e.0@,
        match e.1 {
            Some(sig) => Some((sig.0@, sig.1@)),
            None => None,
        },
    )
}

/// A store, and imports whose host functions live in that store.
pub struct TinywasmLinking {
    store: tinywasm::Store,
    imports: tinywasm::Imports,
    defined: Ghost<(Seq<char>, Seq<char>)>,
}

impl TinywasmLinking {
    /// The one `(module, name)` pair the host functions are defined under.
    pub closed spec fn defined(&self) -> (Seq<char>, Seq<char>) {
        self.defined@
    }
}

/// A module parsed from `bytes`.
pub struct TinywasmModule {
    module: tinywasm::Module,
    bytes: Ghost<Seq<u8>>,
}

impl TinywasmModule {
    /// The binary the module was parsed from.
    pub closed spec fn bytes(&self) -> Seq<u8> {
        self.bytes@
    }
}

/// A store and an instance in it of the module parsed from `bytes`.
pub struct TinywasmInstance {
    store: tinywasm::Store,
    instance: tinywasm::ModuleInstance,
    bytes: Ghost<Seq<u8>>,
}

impl TinywasmInstance {
    /// The binary the instance's module was parsed from.
    pub closed spec fn bytes(&self) -> Seq<u8> {
        self.bytes@
    }
}

/// A store and a function in it, with the function's signature.
pub struct TinywasmEntry {
    store: tinywasm::Store,
    func: tinywasm::Function,
    sig: Ghost<(Seq<ValueKind>, Seq<ValueKind>)>,
}

impl TinywasmEntry {
    /// The kinds of the function's parameters and of its results.
    pub closed spec fn sig(&self) -> (Seq<ValueKind>, Seq<ValueKind>) {
        self.sig@
    }
}

/// Calls `Store::default`, `Imports::new`, `HostFunction::from` in the new
/// store for a host function of type `() -> i32` that answers with
/// `clock_ms_i32(started)`, and `Imports::define`, defining it as
/// `module::name`.
#[verifier::external_body]
pub(crate) fn open_with_clock(module: &str, name: &str, started: &Instant) -> (l: TinywasmLinking)
    ensures
        l.defined() == (module@, name@),
{
    let mut store = tinywasm::Store::default();
    let mut imports = tinywasm::Imports::new();
    let started = *started;
    let clock = tinywasm::HostFunction::from(&mut store, move |_ctx, _arg: ()| Ok(clock_ms_i32(&started)));
    imports.define(module, name, clock);
    TinywasmLinking { store, imports, defined: Ghost((module@, name@)) }
}

/// Calls `parse_bytes`: parses and validates the Wasm binary `wasm`; it
/// succeeds exactly when Tinywasm accepts those bytes.
#[verifier::external_body]
pub(crate) fn parse_bytes(wasm: &[u8]) -> (r: Result<TinywasmModule, tinywasm::ParseError>)
    ensures
        r is Ok <==> tinywasm_parses(wasm@),
        r matches Ok(m) ==> m.bytes() == wasm@,
{
    match tinywasm::parse_bytes(wasm) {
        Ok(module) => Ok(TinywasmModule { module, bytes: Ghost(wasm@) }),
        Err(e) => Err(e),
    }
}

/// Calls `Module::exports` on `m` and gives each export's name and, for a
/// function, the kinds of its parameters and of its results.
#[verifier::external_body]
pub(crate) fn module_exports(m: &TinywasmModule) -> (r: Vec<
    (String, Option<(Vec<ValueKind>, Vec<ValueKind>)>),
>)
    ensures
        r@.map_values(|e: (String, Option<(Vec<ValueKind>, Vec<ValueKind>)>)| export_view(e))
            == tinywasm_exports(m.bytes()),
{
    let kinds = |ts: &[WasmType]| -> Vec<ValueKind> {
        ts.iter().map(|t| match t {
            WasmType::I32 => ValueKind::I32,
            WasmType::I64 => ValueKind::I64,
            WasmType::F32 => ValueKind::F32,
            WasmType::F64 => ValueKind::F64,
            _ => ValueKind::Other,
        }).collect()
    };
    m.module.exports().map(|e| (e.name.to_string(), match e.ty {
        ExportType::Func(f) => Some((kinds(f.params()), kinds(f.results()))),
        _ => None,
    })).collect()
}

/// Calls `ModuleInstance::instantiate`: links `m` against the imports in
/// their store and runs its start function.
#[verifier::external_body]
pub(crate) fn instantiate(l: TinywasmLinking, m: &TinywasmModule) -> (r: Result<
    TinywasmInstance,
    tinywasm::Error,
>)
    ensures
        r matches Ok(i) ==> i.bytes() == m.bytes(),
        r is Ok ==> tinywasm_imports_only(m.bytes(), l.defined().0, l.defined().1),
{
    let mut store = l.store;
    match tinywasm::ModuleInstance::instantiate(&mut store, &m.module, Some(l.imports)) {
        Ok(instance) => Ok(TinywasmInstance { store, instance, bytes: m.bytes }),
        Err(e) => Err(e),
    }
}

/// Calls `ModuleInstance::func_untyped` with the instance's own store: the
/// function exported as `name`, which exists exactly when the module exports
/// a function under that name. It is the first export of that name, the one
/// `Module::exports` lists first, and has the signature listed there.
#[verifier::external_body]
pub(crate) fn func(i: TinywasmInstance, name: &str) -> (r: Result<TinywasmEntry, tinywasm::Error>)
    ensures
        r is Ok <==> tinywasm_exports_func(i.bytes(), name@),
        r matches Ok(e) ==> Some(e.sig()) == export_signature(tinywasm_exports(i.bytes()), name@),
{
    match i.instance.func_untyped(&i.store, name) {
        Ok(func) => Ok(TinywasmEntry {
            store: i.store,
            func,
            sig: Ghost(export_signature(tinywasm_exports(i.bytes@), name@).unwrap()),
        }),
        Err(e) => Err(e),
    }
}

/// Calls `Function::call` with the function's own store and no arguments,
/// and hands its results back as plain values; floats keep their bits.
/// Tinywasm collects the results by the kinds of the function's signature.
#[verifier::external_body]
pub(crate) fn call(e: &mut TinywasmEntry) -> (r: Result<Vec<ScalarValue>, tinywasm::Error>)
    ensures
        final(e).sig() == old(e).sig(),
        r matches Ok(v) ==> scalar_kinds(v@) == old(e).sig().1,
{
    match e.func.call(&mut e.store, &[]) {
        Ok(values) => Ok(values.iter().map(|v| match v {
            tinywasm::types::WasmValue::I32(x) => ScalarValue::I32(*x),
            tinywasm::types::WasmValue::I64(x) => ScalarValue::I64(*x),
            tinywasm::types::WasmValue::F32(x) => ScalarValue::F32(x.to_bits()),
            tinywasm::types::WasmValue::F64(x) => ScalarValue::F64(x.to_bits()),
            _ => ScalarValue::Other,
        }).collect()),
        Err(err) => Err(err),
    }
}

} // verus!
