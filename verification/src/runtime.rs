//! The handles of the virtual machine (engine, module, store, linker,
//! instance) and the call of an exported function through the bridge.

use vstd::prelude::*;
use crate::error::{BridgeError, Side};
use crate::kind::{ValueKind, WasmFunctionTy};
use crate::marshal::{admissible, answer_spec, prepare, prepare_spec, settle, settle_spec};
use crate::value::{conforms, HostValue, Value};
use crate::vm::{
    engine_default, engine_id, engine_is_default, error_text, func_call, func_params, func_results, func_store,
    func_ty, instance_exports, instance_get_func, instance_new, instance_store,
    is_unknown_import, linker_definitions, linker_engine, linker_instantiate, linker_new,
    module_accepted, module_new, store_engine, store_id, store_new, type_param, type_params, type_result,
    type_results, val_from, val_has_kind, val_read, val_view,
};

verus! {

/// An engine: what modules are compiled with and stores are made for.
pub struct JSEngine {
    inner: wasmtime::Engine,
}

/// A compiled module.
pub struct JSModule {
    inner: wasmtime::Module,
}

/// A store: the state that instances run in.
pub struct JSStore {
    inner: wasmtime::Store<()>,
}

/// A linker: the definitions that the imports of a module are resolved
/// against. This library offers no way to define one, so a linker resolves
/// the imports of a module that has none.
pub struct JSLinker {
    inner: wasmtime::Linker<()>,
}

/// A module bound into a store.
pub struct JSInstance {
    inner: wasmtime::Instance,
}

impl JSEngine {
    /// The engine has the default configuration.
    #[verifier::type_invariant]
    spec fn configured(self) -> bool {
        engine_is_default(self.inner)
    }

    /// The identity of this engine.
    pub closed spec fn id(&self) -> int {
        engine_id(self.inner)
    }

    /// Whether this engine has the default configuration.
    pub closed spec fn has_default_configuration(&self) -> bool {
        engine_is_default(self.inner)
    }

    /// Whether this engine takes the bytes for a module: whether they decode,
    /// validate and compile under its configuration.
    pub closed spec fn accepts(&self, contents: Seq<u8>) -> bool {
        module_accepted(self.inner, contents)
    }

    /// An engine with the default configuration.
    pub fn new() -> (engine: JSEngine)
        ensures
            engine.has_default_configuration(),
    {
        JSEngine { inner: engine_default() }
    }
}

impl JSModule {
    /// Compiles the module that a file holds, from the contents of the file,
    /// which are in the binary or the text format. Whether they are a module
    /// is for the engine to say: it gives a module exactly where the engine
    /// accepts the contents, and a `Compilation` error with the engine's
    /// reason where it does not.
    pub fn from_file(engine: &JSEngine, contents: &[u8]) -> (r: Result<JSModule, BridgeError>)
        ensures
            r is Ok <==> engine.accepts(contents@),
            r matches Err(e) ==> e is Compilation,
    {
        proof {
            use_type_invariant(engine);
        }
        match module_new(&engine.inner, contents) {
            Ok(inner) => Ok(JSModule { inner }),
            Err(error) => Err(BridgeError::Compilation(error_text(&error))),
        }
    }
}

impl JSStore {
    /// The identity of this store. It stays what it is through every
    /// operation on the store.
    pub closed spec fn id(&self) -> int {
        store_id(self.inner)
    }

    /// The identity of the engine that this store was made for.
    pub closed spec fn engine(&self) -> int {
        store_engine(self.inner)
    }

    /// Whether this store is the one that `before` was, some operations
    /// later.
    pub open spec fn continues(&self, before: &JSStore) -> bool {
        &&& self.id() == before.id()
        &&& self.engine() == before.engine()
    }

    /// An empty store for the engine.
    pub fn new(engine: &JSEngine) -> (store: JSStore)
        ensures
            store.engine() == engine.id(),
    {
        JSStore { inner: store_new(&engine.inner) }
    }
}

impl JSLinker {
    /// The linker defines nothing.
    #[verifier::type_invariant]
    spec fn empty(self) -> bool {
        linker_definitions(self.inner) == 0
    }

    /// The identity of the engine that this linker was made for.
    pub closed spec fn engine(&self) -> int {
        linker_engine(self.inner)
    }

    /// A linker for the engine. It defines nothing.
    pub fn new(engine: &JSEngine) -> (linker: JSLinker)
        ensures
            linker.engine() == engine.id(),
    {
        JSLinker { inner: linker_new(&engine.inner) }
    }

    /// Binds the module into the store, its imports resolved against this
    /// linker. The linker and the store have to be of one engine. The
    /// instance belongs to the store. An import that the linker does not
    /// define is an `UnresolvedImport`; any other failure of the engine is an
    /// `Instantiation`.
    pub fn instantiate(&self, store: &mut JSStore, module: &JSModule) -> (r: Result<JSInstance, BridgeError>)
        requires
            self.engine() == old(store).engine(),
        ensures
            final(store).continues(old(store)),
            match r {
                Ok(instance) => instance.store() == final(store).id(),
                Err(e) => e is UnresolvedImport || e is Instantiation,
            },
    {
        proof {
            use_type_invariant(self);
        }
        match linker_instantiate(&self.inner, &mut store.inner, &module.inner) {
            Ok(inner) => Ok(JSInstance { inner }),
            Err(error) => {
                if is_unknown_import(&error) {
                    Err(BridgeError::UnresolvedImport(error_text(&error)))
                } else {
                    Err(BridgeError::Instantiation(error_text(&error)))
                }
            },
        }
    }
}

impl JSInstance {
    /// The identity of the store that owns this instance.
    pub closed spec fn store(&self) -> int {
        instance_store(self.inner)
    }

    /// The names under which this instance exports a function.
    pub closed spec fn exports(&self) -> Set<Seq<char>> {
        instance_exports(self.inner)
    }

    /// Binds a module that imports nothing into the store. The instance
    /// belongs to the store. Where the engine cannot instantiate the module,
    /// the error holds its reason.
    pub fn new(store: &mut JSStore, module: &JSModule) -> (r: Result<JSInstance, BridgeError>)
        ensures
            final(store).continues(old(store)),
            match r {
                Ok(instance) => instance.store() == final(store).id(),
                Err(e) => e is Instantiation,
            },
    {
        match instance_new(&mut store.inner, &module.inner) {
            Ok(inner) => Ok(JSInstance { inner }),
            Err(error) => Err(BridgeError::Instantiation(error_text(&error))),
        }
    }

    /// Looks up the function that this instance exports under a name, with
    /// its signature. A name under which no function is exported gives
    /// nothing; that is no error. The store has to be the one that owns the
    /// instance, and then owns the function too.
    pub fn get_func(&self, store: &mut JSStore, fn_name: String) -> (r: Option<WasmFunction>)
        requires
            self.store() == old(store).id(),
        ensures
            final(store).continues(old(store)),
            r is Some <==> self.exports().contains(fn_name@),
            r matches Some(function) ==> function.store() == final(store).id(),
    {
        match instance_get_func(&self.inner, &mut store.inner, fn_name.as_str()) {
            Some(func) => Some(capture(func, store)),
            None => None,
        }
    }
}

/// A function that an instance exports, with the signature that it had when
/// it was looked up.
pub struct WasmFunction {
    inner: wasmtime::Func,
    ty: WasmFunctionTy,
}

/// Reads the parameter kinds of a function type.
fn read_params(ty: &wasmtime::FuncType) -> (kinds: Vec<ValueKind>)
    ensures
        kinds@ == type_params(*ty),
{
    let mut kinds: Vec<ValueKind> = Vec::new();
    loop
        invariant
            kinds@.len() <= type_params(*ty).len(),
            kinds@ == type_params(*ty).subrange(0, kinds@.len() as int),
        ensures
            kinds@ == type_params(*ty),
        decreases type_params(*ty).len() - kinds@.len(),
    {
        match type_param(ty, kinds.len()) {
            Some(kind) => {
                kinds.push(kind);
            },
            None => {
                break ;
            },
        }
    }
    kinds
}

/// Reads the result kinds of a function type.
fn read_results(ty: &wasmtime::FuncType) -> (kinds: Vec<ValueKind>)
    ensures
        kinds@ == type_results(*ty),
{
    let mut kinds: Vec<ValueKind> = Vec::new();
    loop
        invariant
            kinds@.len() <= type_results(*ty).len(),
            kinds@ == type_results(*ty).subrange(0, kinds@.len() as int),
        ensures
            kinds@ == type_results(*ty),
        decreases type_results(*ty).len() - kinds@.len(),
    {
        match type_result(ty, kinds.len()) {
            Some(kind) => {
                kinds.push(kind);
            },
            None => {
                break ;
            },
        }
    }
    kinds
}

/// Hands the values to the engine, each in the engine's own form.
fn to_engine(values: &Vec<Value>) -> (vals: Vec<wasmtime::Val>)
    ensures
        vals@.len() == values@.len(),
        forall|i: int| 0 <= i < vals@.len() ==> val_view(#[trigger] vals@[i]) == Some(values@[i]),
{
    let mut vals: Vec<wasmtime::Val> = Vec::new();
    let mut i: usize = 0;
    while i < values.len()
        invariant
            i <= values@.len(),
            vals@.len() == i,
            forall|j: int| 0 <= j < i ==> val_view(#[trigger] vals@[j]) == Some(values@[j]),
        decreases values@.len() - i,
    {
        vals.push(val_from(&values[i]));
        i = i + 1;
    }
    vals
}

/// Whether `p` is the first slot that holds something else than an integer
/// or a float.
spec fn is_first_unreadable(vals: Seq<wasmtime::Val>, p: int) -> bool {
    &&& 0 <= p < vals.len()
    &&& val_view(vals[p]) is None
    &&& forall|j: int| 0 <= j < p ==> val_view(#[trigger] vals[j]) is Some
}

/// Reads what the engine left in the result slots. A slot that holds
/// something else than an integer or a float is of a kind that cannot be
/// handed back; the first such slot is refused, by the kind that the
/// signature gives for it.
fn from_engine(vals: &Vec<wasmtime::Val>, kinds: &Vec<ValueKind>) -> (r: Result<Vec<Value>, BridgeError>)
    requires
        vals@.len() == kinds@.len(),
    ensures
        match r {
            Ok(values) => {
                &&& values@.len() == vals@.len()
                &&& forall|i: int| 0 <= i < vals@.len() ==> val_view(#[trigger] vals@[i]) == Some(values@[i])
            },
            Err(e) => exists|p: int|
                is_first_unreadable(vals@, p) && e == (BridgeError::UnsupportedType {
                    kind: kinds@[p],
                    side: Side::Result,
                    position: p as usize,
                }),
        },
{
    let mut values: Vec<Value> = Vec::new();
    let mut i: usize = 0;
    while i < vals.len()
        invariant
            i <= vals@.len(),
            vals@.len() == kinds@.len(),
            values@.len() == i,
            forall|j: int| 0 <= j < i ==> val_view(#[trigger] vals@[j]) == Some(values@[j]),
        decreases vals@.len() - i,
    {
        match val_read(&vals[i]) {
            Some(value) => {
                values.push(value);
            },
            None => {
                assert(is_first_unreadable(vals@, i as int));
                return Err(BridgeError::UnsupportedType { kind: kinds[i], side: Side::Result, position: i });
            },
        }
        i = i + 1;
    }
    Ok(values)
}

/// Takes a function that the store owns, and its signature with it.
fn capture(func: wasmtime::Func, store: &JSStore) -> (function: WasmFunction)
    requires
        func_store(func) == store.id(),
    ensures
        function.store() == store.id(),
{
    let ty = func_ty(&func, &store.inner);
    let signature = WasmFunctionTy::new(read_params(&ty), read_results(&ty));
    WasmFunction { inner: func, ty: signature }
}

impl WasmFunction {
    /// The signature is the function's own.
    #[verifier::type_invariant]
    spec fn captured(self) -> bool {
        &&& self.ty.param_kinds() == func_params(self.inner)
        &&& self.ty.result_kinds() == func_results(self.inner)
    }

    /// The identity of the store that owns this function.
    pub closed spec fn store(&self) -> int {
        func_store(self.inner)
    }

    /// The signature of this function.
    pub closed spec fn signature(&self) -> WasmFunctionTy {
        self.ty
    }

    /// The signature that this function had when it was looked up. The store
    /// is left as it is.
    pub fn ty(&self, store: &mut JSStore) -> (ty: WasmFunctionTy)
        ensures
            ty.param_kinds() == self.signature().param_kinds(),
            ty.result_kinds() == self.signature().result_kinds(),
            *final(store) == *old(store),
    {
        self.ty.duplicate()
    }

    /// Runs the function on the arguments, with the buffer for its results,
    /// and reads what it returned. A trap, or any other failure of the
    /// engine, is an `Invocation` error that holds the engine's description.
    fn invoke(&self, store: &mut JSStore, arguments: &Vec<Value>, buffer: &Vec<Value>) -> (r: Result<
        Vec<Value>,
        BridgeError,
    >)
        requires
            self.store() == old(store).id(),
            conforms(buffer@, self.signature().result_kinds()),
        ensures
            final(store).continues(old(store)),
            match r {
                Ok(values) => conforms(values@, self.signature().result_kinds()),
                Err(e) => e is Invocation,
            },
    {
        proof {
            use_type_invariant(self);
        }
        let params = to_engine(arguments);
        let mut results = to_engine(buffer);
        assert forall|i: int| 0 <= i < func_results(self.inner).len() implies (#[trigger] func_results(
            self.inner,
        )[i]).is_result_kind() by {
            assert(buffer@[i].kind() == func_results(self.inner)[i]);
        }
        match func_call(&self.inner, &mut store.inner, &params, &mut results) {
            Err(error) => Err(BridgeError::Invocation(error_text(&error))),
            Ok(()) => {
                let r = from_engine(&results, self.ty.results());
                proof {
                    // Every slot holds a value of its result kind, and every
                    // result kind is one that can be read.
                    assert forall|p: int| !is_first_unreadable(results@, p) by {
                        if 0 <= p < results@.len() {
                            assert(val_has_kind(results@[p], func_results(self.inner)[p]));
                            assert(func_results(self.inner)[p].is_result_kind());
                        }
                    }
                    if r is Ok {
                        let values = r->Ok_0@;
                        assert forall|i: int| 0 <= i < values.len() implies (#[trigger] values[i]).kind()
                            == func_results(self.inner)[i] by {
                            assert(val_has_kind(results@[i], func_results(self.inner)[i]));
                        }
                    }
                }
                r
            },
        }
    }

    /// Calls the function with the caller's arguments.
    ///
    /// The result buffer is built and the arguments are converted first;
    /// where that fails the error is returned, the callee does not run and
    /// the store is left as it is. Otherwise the callee runs in the store,
    /// which has to be the one that owns the function. How the invocation
    /// ends is for the engine to say: with an error, which the answer then
    /// reports as an `Invocation` error, or with one value of each result
    /// kind, from which the answer is settled: nothing for no value, the
    /// value for one, an error for more.
    pub fn call(&self, store: &mut JSStore, args: &Vec<HostValue>) -> (r: Result<Option<Value>, BridgeError>)
        requires
            self.store() == old(store).id(),
        ensures
            final(store).continues(old(store)),
            exists|outcome: Result<Seq<Value>, String>|
                admissible(self.signature().result_kinds(), outcome) && r == #[trigger] answer_spec(
                    self.signature().param_kinds(),
                    self.signature().result_kinds(),
                    args@,
                    outcome,
                ),
            prepare_spec(self.signature().param_kinds(), self.signature().result_kinds(), args@) matches Err(e)
                ==> r == Err::<Option<Value>, BridgeError>(e) && *final(store) == *old(store),
            r matches Ok(Some(value)) ==> self.signature().result_kinds().len() == 1 && value.kind()
                == self.signature().result_kinds()[0],
            r matches Ok(None) ==> self.signature().result_kinds().len() == 0,
            self.signature().result_kinds().len() > 1 ==> r is Err,
    {
        let ghost params = self.ty.param_kinds();
        let ghost results = self.ty.result_kinds();
        let (arguments, buffer) = match prepare(&self.ty, args) {
            Ok(prepared) => prepared,
            Err(e) => {
                proof {
                    let unused: Result<Seq<Value>, String> = Err(arbitrary());
                    assert(answer_spec(params, results, args@, unused) == Err::<Option<Value>, BridgeError>(e));
                }
                return Err(e);
            },
        };
        match self.invoke(store, &arguments, &buffer) {
            Ok(values) => {
                proof {
                    let returned: Result<Seq<Value>, String> = Ok(values@);
                    assert(answer_spec(params, results, args@, returned) == settle_spec(values@));
                }
                settle(values)
            },
            Err(e) => {
                proof {
                    let trapped: Result<Seq<Value>, String> = Err(e->Invocation_0);
                    assert(answer_spec(params, results, args@, trapped) == Err::<Option<Value>, BridgeError>(e));
                }
                Err(e)
            },
        }
    }
}

} // verus!
