//! The virtual machine, as far as the bridge relies on it.
//!
//! Nothing in this file is proved. The types are those of the `wasmtime`
//! crate, opaque to the verifier; the spec functions without a body name what
//! the engine knows of a handle; each executable function makes one call into
//! the crate and states what the crate's documentation and source say of it.

use vstd::prelude::*;
use crate::kind::ValueKind;
use crate::value::Value;

verus! {

/// `wasmtime::Engine`: a handle to an engine, shared by what is made from it.
#[verifier::external_type_specification]
#[verifier::external_body]
pub struct ExEngine(wasmtime::Engine);

/// `wasmtime::Module`: a compiled module.
#[verifier::external_type_specification]
#[verifier::external_body]
pub struct ExModule(wasmtime::Module);

/// `wasmtime::Store`: the state that instances run in, with data of the
/// host's choosing.
#[verifier::external_type_specification]
#[verifier::external_body]
#[verifier::reject_recursive_types(T)]
pub struct ExStore<T: 'static>(wasmtime::Store<T>);

/// `wasmtime::Linker`: definitions by name, for stores with data of one type.
#[verifier::external_type_specification]
#[verifier::external_body]
#[verifier::reject_recursive_types(T)]
pub struct ExLinker<T>(wasmtime::Linker<T>);

/// `wasmtime::Instance`: a handle to an instance inside a store.
#[verifier::external_type_specification]
#[verifier::external_body]
pub struct ExInstance(wasmtime::Instance);

/// `wasmtime::Func`: a handle to a function inside a store.
#[verifier::external_type_specification]
#[verifier::external_body]
pub struct ExFunc(wasmtime::Func);

/// `wasmtime::FuncType`: the type of a function.
#[verifier::external_type_specification]
#[verifier::external_body]
pub struct ExFuncType(wasmtime::FuncType);

/// `wasmtime::Val`: a value that a function takes or returns.
#[verifier::external_type_specification]
#[verifier::external_body]
pub struct ExVal(wasmtime::Val);

/// `wasmtime::Error`: why an operation of the engine failed.
#[verifier::external_type_specification]
#[verifier::external_body]
pub struct ExError(wasmtime::Error);

/// The identity of an engine. Two handles have the same identity when
/// `wasmtime::Engine::same` holds of them.
pub uninterp spec fn engine_id(engine: wasmtime::Engine) -> int;

/// Whether an engine has the configuration that `wasmtime::Config::default`
/// gives. Such an engine keeps no cache of compiled modules on disk.
pub uninterp spec fn engine_is_default(engine: wasmtime::Engine) -> bool;

/// Whether an engine takes the bytes for a module: whether they decode, from
/// the binary or the text format, validate, and compile under the engine's
/// configuration.
pub uninterp spec fn module_accepted(engine: wasmtime::Engine, bytes: Seq<u8>) -> bool;

/// The identity of a store, which the engine gives it when it is made and
/// which no operation changes.
pub uninterp spec fn store_id(store: wasmtime::Store<()>) -> int;

/// The identity of the engine that a store was made for.
pub uninterp spec fn store_engine(store: wasmtime::Store<()>) -> int;

/// The identity of the engine that a linker was made for.
pub uninterp spec fn linker_engine(linker: wasmtime::Linker<()>) -> int;

/// The number of items that a linker defines.
pub uninterp spec fn linker_definitions(linker: wasmtime::Linker<()>) -> nat;

/// The identity of the store that owns an instance.
pub uninterp spec fn instance_store(instance: wasmtime::Instance) -> int;

/// The names under which an instance exports a function.
pub uninterp spec fn instance_exports(instance: wasmtime::Instance) -> Set<Seq<char>>;

/// The identity of the store that owns a function.
pub uninterp spec fn func_store(func: wasmtime::Func) -> int;

/// The parameter kinds of a function, in order.
pub uninterp spec fn func_params(func: wasmtime::Func) -> Seq<ValueKind>;

/// The result kinds of a function, in order.
pub uninterp spec fn func_results(func: wasmtime::Func) -> Seq<ValueKind>;

/// The parameter kinds of a function type, in order.
pub uninterp spec fn type_params(ty: wasmtime::FuncType) -> Seq<ValueKind>;

/// The result kinds of a function type, in order.
pub uninterp spec fn type_results(ty: wasmtime::FuncType) -> Seq<ValueKind>;

/// What a value of the engine holds, where it is an integer or a float:
/// nothing for a vector or a reference.
pub uninterp spec fn val_view(val: wasmtime::Val) -> Option<Value>;

/// Whether a store is still the one it was: no operation on a store changes
/// its identity or its engine.
pub open spec fn same_store(after: wasmtime::Store<()>, before: wasmtime::Store<()>) -> bool {
    &&& store_id(after) == store_id(before)
    &&& store_engine(after) == store_engine(before)
}

/// Whether a value of the engine is of the given kind.
pub open spec fn val_has_kind(val: wasmtime::Val, kind: ValueKind) -> bool {
    match val_view(val) {
        Some(value) => value.kind() == kind,
        None => !kind.is_result_kind(),
    }
}

/// `wasmtime::Engine::default`: an engine with the default configuration.
/// The crate makes it by `Engine::new` on `Config::default` and unwraps the
/// result, with no argument by which a failure could be ruled out.
#[verifier::external_body]
pub(crate) fn engine_default() -> (engine: wasmtime::Engine)
    ensures
        engine_is_default(engine),
{
    wasmtime::Engine::default()
}

/// `wasmtime::Module::new`: compiles a module from its binary or text form.
/// It returns a module exactly where the engine takes the bytes for one. An
/// engine with another configuration than the default may answer from a cache
/// on disk, so the engine is one with the default configuration: what it
/// answers rests on the engine and the bytes alone.
#[verifier::external_body]
pub(crate) fn module_new(engine: &wasmtime::Engine, bytes: &[u8]) -> (r: Result<wasmtime::Module, wasmtime::Error>)
    requires
        engine_is_default(*engine),
    ensures
        r is Ok <==> module_accepted(*engine, bytes@),
{
    wasmtime::Module::new(engine, bytes)
}

/// `wasmtime::Store::new`, with no data of the host in the store. The store
/// is made for the engine given.
#[verifier::external_body]
pub(crate) fn store_new(engine: &wasmtime::Engine) -> (store: wasmtime::Store<()>)
    ensures
        store_engine(store) == engine_id(*engine),
{
    wasmtime::Store::new(engine, ())
}

/// `wasmtime::Linker::new`: a linker that defines nothing, for the engine
/// given.
#[verifier::external_body]
pub(crate) fn linker_new(engine: &wasmtime::Engine) -> (linker: wasmtime::Linker<()>)
    ensures
        linker_engine(linker) == engine_id(*engine),
        linker_definitions(linker) == 0,
{
    wasmtime::Linker::new(engine)
}

/// `wasmtime::Instance::new` with no imports. An instance that it returns is
/// owned by the store. With no imports handed in the call returns an error
/// where it cannot instantiate, a module of another engine included.
#[verifier::external_body]
pub(crate) fn instance_new(store: &mut wasmtime::Store<()>, module: &wasmtime::Module) -> (r: Result<
    wasmtime::Instance,
    wasmtime::Error,
>)
    ensures
        same_store(*final(store), *old(store)),
        r matches Ok(instance) ==> instance_store(instance) == store_id(*final(store)),
{
    wasmtime::Instance::new(store, module, &[])
}

/// `wasmtime::Linker::instantiate`. The crate documents a panic where the
/// store belongs to another engine than the linker, and where the linker
/// defines an item that the store does not own; so the two are of one engine,
/// and the linker defines nothing. An instance that it returns is owned by
/// the store.
#[verifier::external_body]
pub(crate) fn linker_instantiate(
    linker: &wasmtime::Linker<()>,
    store: &mut wasmtime::Store<()>,
    module: &wasmtime::Module,
) -> (r: Result<wasmtime::Instance, wasmtime::Error>)
    requires
        linker_engine(*linker) == store_engine(*old(store)),
        linker_definitions(*linker) == 0,
    ensures
        same_store(*final(store), *old(store)),
        r matches Ok(instance) ==> instance_store(instance) == store_id(*final(store)),
{
    linker.instantiate(store, module)
}

/// `wasmtime::Error::is` for `wasmtime::UnknownImportError`: whether the
/// error says that an import is not defined.
#[verifier::external_body]
pub(crate) fn is_unknown_import(error: &wasmtime::Error) -> (b: bool) {
    error.is::<wasmtime::UnknownImportError>()
}

/// The text of a `wasmtime::Error`, as its `Display` writes it.
#[verifier::external_body]
pub(crate) fn error_text(error: &wasmtime::Error) -> (text: String) {
    error.to_string()
}

/// `wasmtime::Instance::get_func`. The crate panics where the store does not
/// own the instance. It finds a function exactly under the names that the
/// instance exports one under, and the function is owned by the store.
#[verifier::external_body]
pub(crate) fn instance_get_func(instance: &wasmtime::Instance, store: &mut wasmtime::Store<()>, name: &str) -> (r:
    Option<wasmtime::Func>)
    requires
        instance_store(*instance) == store_id(*old(store)),
    ensures
        same_store(*final(store), *old(store)),
        r is Some <==> instance_exports(*instance).contains(name@),
        r matches Some(func) ==> func_store(func) == store_id(*final(store)),
{
    instance.get_func(store, name)
}

/// `wasmtime::Func::ty`. The crate panics where the store does not own the
/// function. The type has the function's parameter and result kinds.
#[verifier::external_body]
pub(crate) fn func_ty(func: &wasmtime::Func, store: &wasmtime::Store<()>) -> (ty: wasmtime::FuncType)
    requires
        func_store(*func) == store_id(*store),
    ensures
        type_params(ty) == func_params(*func),
        type_results(ty) == func_results(*func),
{
    func.ty(store)
}

/// `wasmtime::FuncType::param`: the kind of the parameter at an index, and
/// nothing from the number of parameters on.
#[verifier::external_body]
pub(crate) fn type_param(ty: &wasmtime::FuncType, index: usize) -> (kind: Option<ValueKind>)
    ensures
        kind == if index < type_params(*ty).len() {
            Some(type_params(*ty)[index as int])
        } else {
            None
        },
{
    match ty.param(index) {
        Some(wasmtime::ValType::I32) => Some(ValueKind::I32),
        Some(wasmtime::ValType::I64) => Some(ValueKind::I64),
        Some(wasmtime::ValType::F32) => Some(ValueKind::F32),
        Some(wasmtime::ValType::F64) => Some(ValueKind::F64),
        Some(wasmtime::ValType::V128) => Some(ValueKind::V128),
        Some(wasmtime::ValType::Ref(_)) => Some(ValueKind::Ref),
        None => None,
    }
}

/// `wasmtime::FuncType::result`: the kind of the result at an index, and
/// nothing from the number of results on.
#[verifier::external_body]
pub(crate) fn type_result(ty: &wasmtime::FuncType, index: usize) -> (kind: Option<ValueKind>)
    ensures
        kind == if index < type_results(*ty).len() {
            Some(type_results(*ty)[index as int])
        } else {
            None
        },
{
    match ty.result(index) {
        Some(wasmtime::ValType::I32) => Some(ValueKind::I32),
        Some(wasmtime::ValType::I64) => Some(ValueKind::I64),
        Some(wasmtime::ValType::F32) => Some(ValueKind::F32),
        Some(wasmtime::ValType::F64) => Some(ValueKind::F64),
        Some(wasmtime::ValType::V128) => Some(ValueKind::V128),
        Some(wasmtime::ValType::Ref(_)) => Some(ValueKind::Ref),
        None => None,
    }
}

/// The variant of `wasmtime::Val` that holds the given value: `I32`, `I64`,
/// or `F32` or `F64` with the bits of the float.
#[verifier::external_body]
pub(crate) fn val_from(value: &Value) -> (val: wasmtime::Val)
    ensures
        val_view(val) == Some(*value),
{
    match value {
        Value::I32(v) => wasmtime::Val::I32(*v),
        Value::I64(v) => wasmtime::Val::I64(*v),
        Value::F32(bits) => wasmtime::Val::F32(*bits),
        Value::F64(bits) => wasmtime::Val::F64(*bits),
    }
}

/// What a `wasmtime::Val` holds, by its variant: the integer or the bits of
/// the float, and nothing for a vector or a reference.
#[verifier::external_body]
pub(crate) fn val_read(val: &wasmtime::Val) -> (value: Option<Value>)
    ensures
        value == val_view(*val),
{
    match val {
        wasmtime::Val::I32(v) => Some(Value::I32(*v)),
        wasmtime::Val::I64(v) => Some(Value::I64(*v)),
        wasmtime::Val::F32(bits) => Some(Value::F32(*bits)),
        wasmtime::Val::F64(bits) => Some(Value::F64(*bits)),
        wasmtime::Val::V128(_) => None,
        wasmtime::Val::FuncRef(_) => None,
        wasmtime::Val::ExternRef(_) => None,
        wasmtime::Val::AnyRef(_) => None,
        wasmtime::Val::ExnRef(_) => None,
        wasmtime::Val::ContRef(_) => None,
    }
}

/// `wasmtime::Func::call`. The crate panics where the store does not own the
/// function, and where it has to hand back a reference that it cannot; so the
/// store owns the function, and no result is a reference. The parameters are
/// integers and floats, which belong to no store. Where the call returns
/// without an error, `results` has one slot for each result of the function,
/// and each slot holds a value of the result kind at its position. The call
/// lasts as long as the callee runs; nothing here says that the callee ends.
#[verifier::external_body]
pub(crate) fn func_call(
    func: &wasmtime::Func,
    store: &mut wasmtime::Store<()>,
    params: &Vec<wasmtime::Val>,
    results: &mut Vec<wasmtime::Val>,
) -> (r: Result<(), wasmtime::Error>)
    requires
        func_store(*func) == store_id(*old(store)),
        forall|i: int| 0 <= i < func_results(*func).len() ==> !(#[trigger] func_results(*func)[i] is Ref),
        forall|i: int| 0 <= i < params@.len() ==> val_view(#[trigger] params@[i]) is Some,
    ensures
        same_store(*final(store), *old(store)),
        r is Ok ==> final(results)@.len() == func_results(*func).len(),
        r is Ok ==> forall|i: int|
            0 <= i < final(results)@.len() ==> val_has_kind(#[trigger] final(results)@[i], func_results(*func)[i]),
{
    func.call(store, params, results)
}

} // verus!
