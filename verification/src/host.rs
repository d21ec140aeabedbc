//! The module host: loads WebAssembly modules, links one module's imports
//! against another's exports, and calls exported functions.
//!
//! The engine that compiles and runs the modules is `wasmtime`. Nothing is
//! proved of what a module computes. What the engine decides from its
//! arguments alone has a name here: what it makes of a module's bytes, which
//! names its linker defines, what an instance exports. Over these names the
//! host's contracts say when loading succeeds, which names a publication
//! defines, which import a link error names, and when a call finds its
//! function. The rest is how the host keeps its books and which failure of
//! the engine becomes which `HostError`.

use anyhow::Error;
use vstd::prelude::*;
use wasmtime::{
    Config, Engine, Instance, Linker, Module, Store, Trap, TypedFunc, UnknownImportError,
};
use wasmtime_wasi::WasiCtx;

verus! {

/// The namespace under which a program expects the primitive library.
pub const LIBRARY_NAMESPACE: &'static str = "asm_x86";

/// The export of a compiled program that computes its result.
pub const ENTRY_POINT: &'static str = "scheme_entry";

/// `wasmtime::Engine`: compiles modules and is shared by what runs them.
#[verifier::external_type_specification]
#[verifier::external_body]
pub struct ExEngine(Engine);

/// `wasmtime::Module`: a compiled module, not yet instantiated.
#[verifier::external_type_specification]
#[verifier::external_body]
pub struct ExModule(Module);

/// `wasmtime::Instance`: a handle to an instance that lives in a store.
#[verifier::external_type_specification]
#[verifier::external_body]
pub struct ExInstance(Instance);

/// `wasmtime::Store`: owns the instances and the data of type `T`.
#[verifier::external_type_specification]
#[verifier::external_body]
#[verifier::reject_recursive_types(T)]
pub struct ExStore<T>(Store<T>);

/// `wasmtime::Linker`: the definitions that imports are resolved against.
#[verifier::external_type_specification]
#[verifier::external_body]
#[verifier::reject_recursive_types(T)]
pub struct ExLinker<T>(Linker<T>);

/// `wasmtime::TypedFunc`: an exported function whose signature was checked.
#[verifier::external_type_specification]
#[verifier::external_body]
#[verifier::reject_recursive_types(Params)]
#[verifier::reject_recursive_types(Results)]
pub struct ExTypedFunc<Params, Results>(TypedFunc<Params, Results>);

/// `wasmtime_wasi::WasiCtx`: what an instance may reach of the system.
#[verifier::external_type_specification]
#[verifier::external_body]
pub struct ExWasiCtx(WasiCtx);

/// `anyhow::Error`: the error of every fallible call into the engine.
#[verifier::external_type_specification]
#[verifier::external_body]
pub struct ExError(Error);

/// A namespace and a name within it, as views of two strings.
pub type ImportKey = (Seq<char>, Seq<char>);

/// The names that a linker defines: the pairs of namespace and name that it
/// would find for an import.
pub uninterp spec fn linker_names(linker: Linker<WasiCtx>) -> Set<ImportKey>;

/// Whether a linker lets a new definition take the place of an old one of
/// the same name.
pub uninterp spec fn linker_shadows(linker: Linker<WasiCtx>) -> bool;

/// The imports that a module declares, in the order of its import section.
pub uninterp spec fn module_imports(module: Module) -> Seq<ImportKey>;

/// What an engine makes of the binary or text form of a module: nothing,
/// where it refuses the bytes, or else a module that declares these imports.
pub uninterp spec fn compiled_imports(engine: Engine, bytes: Seq<u8>) -> Option<Seq<ImportKey>>;

/// The names of the exports of an instance that lives in a store; nothing
/// where the store holds no such instance.
pub uninterp spec fn instance_exports(store: Store<WasiCtx>, instance: Instance) -> Option<
    Set<Seq<char>>,
>;

/// Whether an instance that lives in a store exports, under `name`, a
/// function that takes `parameters` words and returns one word.
pub uninterp spec fn exports_word_function(
    store: Store<WasiCtx>,
    instance: Instance,
    name: Seq<char>,
    parameters: nat,
) -> bool;

/// Whether an engine runs a call to its end before it returns, as the
/// default configuration has it, and never hands it to an executor.
pub uninterp spec fn engine_synchronous(engine: Engine) -> bool;

/// Whether a store runs a call to its end before it returns.
pub uninterp spec fn store_synchronous(store: Store<WasiCtx>) -> bool;

/// Whether a linker was made for this engine.
pub uninterp spec fn linker_of(linker: Linker<WasiCtx>, engine: Engine) -> bool;

/// Whether a store was made for this engine.
pub uninterp spec fn store_of(store: Store<WasiCtx>, engine: Engine) -> bool;

/// Whether a linker can serve a store: each of its definitions is a
/// function of the system interface or an export of an instance that lives
/// in this store.
pub uninterp spec fn linker_serves(linker: Linker<WasiCtx>, store: Store<WasiCtx>) -> bool;

/// Whether a store holds this function without parameters.
pub uninterp spec fn holds_nullary(store: Store<WasiCtx>, function: TypedFunc<(), i32>) -> bool;

/// Whether a store holds this function of two words.
pub uninterp spec fn holds_binary(
    store: Store<WasiCtx>,
    function: TypedFunc<(i32, i32), i32>,
) -> bool;

/// A store stays what it is: `after` belongs to the engines that `before`
/// belonged to and is as synchronous, a linker that could serve `before` can
/// serve `after`, and each instance that `before` holds is in `after` with
/// the same exports, of the same types.
pub open spec fn store_persists(before: Store<WasiCtx>, after: Store<WasiCtx>) -> bool {
    &&& store_synchronous(after) == store_synchronous(before)
    &&& forall|engine: Engine| #[trigger] store_of(before, engine) ==> store_of(after, engine)
    &&& forall|linker: Linker<WasiCtx>| #[trigger]
        linker_serves(linker, before) ==> linker_serves(linker, after)
    &&& forall|instance: Instance| #[trigger]
        instance_exports(before, instance) is Some ==> {
            &&& instance_exports(after, instance) == instance_exports(before, instance)
            &&& forall|name: Seq<char>, parameters: nat| #[trigger]
                exports_word_function(after, instance, name, parameters)
                    == exports_word_function(before, instance, name, parameters)
        }
}

/// A linker stays where it is: `after` belongs to the engines that
/// `before` belonged to.
pub open spec fn linker_persists(before: Linker<WasiCtx>, after: Linker<WasiCtx>) -> bool {
    forall|engine: Engine| #[trigger] linker_of(before, engine) ==> linker_of(after, engine)
}

/// Whether a linker and a store were made for one engine.
pub open spec fn of_one_engine(linker: Linker<WasiCtx>, store: Store<WasiCtx>) -> bool {
    exists|engine: Engine| #[trigger] linker_of(linker, engine) && store_of(store, engine)
}

/// The names that a publication under `namespace` defines: one for each of
/// `exports`.
pub open spec fn published(namespace: Seq<char>, exports: Set<Seq<char>>) -> Set<ImportKey> {
    Set::new(|key: ImportKey| key.0 == namespace && exports.contains(key.1))
}

/// Whether the names `after` are the names `before` and one under
/// `namespace` for each export of an instance that is there.
pub open spec fn extended_by(
    before: Set<ImportKey>,
    after: Set<ImportKey>,
    namespace: Seq<char>,
    exports: Option<Set<Seq<char>>>,
) -> bool {
    exports matches Some(names) && after == before.union(published(namespace, names))
}

/// The first of `imports` that `defined` lacks, if there is one.
pub open spec fn first_unresolved(imports: Seq<ImportKey>, defined: Set<ImportKey>) -> Option<
    ImportKey,
>
    decreases imports.len(),
{
    if imports.len() == 0 {
        None
    } else if !defined.contains(imports[0]) {
        Some(imports[0])
    } else {
        first_unresolved(imports.drop_first(), defined)
    }
}

/// What `first_unresolved` finds: nothing exactly when every import is
/// defined, and otherwise an import that is not defined and has only
/// defined imports before it.
pub proof fn lemma_first_unresolved(imports: Seq<ImportKey>, defined: Set<ImportKey>)
    ensures
        match first_unresolved(imports, defined) {
            None => forall|i: int| 0 <= i < imports.len() ==> defined.contains(#[trigger] imports[i]),
            Some(key) => exists|i: int|
                {
                    &&& 0 <= i < imports.len()
                    &&& #[trigger] imports[i] == key
                    &&& !defined.contains(key)
                    &&& forall|j: int| 0 <= j < i ==> defined.contains(#[trigger] imports[j])
                },
        },
    decreases imports.len(),
{
    if imports.len() > 0 && defined.contains(imports[0]) {
        let rest = imports.drop_first();
        lemma_first_unresolved(rest, defined);
        match first_unresolved(rest, defined) {
            None => {
                assert forall|i: int| 0 <= i < imports.len() implies defined.contains(
                    #[trigger] imports[i],
                ) by {
                    if i > 0 {
                        assert(imports[i] == rest[i - 1]);
                    }
                }
            },
            Some(key) => {
                let i = choose|i: int|
                    {
                        &&& 0 <= i < rest.len()
                        &&& #[trigger] rest[i] == key
                        &&& !defined.contains(key)
                        &&& forall|j: int| 0 <= j < i ==> defined.contains(#[trigger] rest[j])
                    };
                assert(imports[i + 1] == key);
                assert forall|j: int| 0 <= j < i + 1 implies defined.contains(
                    #[trigger] imports[j],
                ) by {
                    if j > 0 {
                        assert(imports[j] == rest[j - 1]);
                    }
                }
            },
        }
    } else if imports.len() > 0 {
        assert(imports[0] == imports[0]);
    }
}

/// An import by its namespace and its name.
#[derive(Clone, Debug, PartialEq, Eq)]
pub struct ImportName {
    pub namespace: String,
    pub name: String,
}

impl View for ImportName {
    type V = ImportKey;

    open spec fn view(&self) -> ImportKey {
        (self.namespace@, self.name@)
    }
}

/// Why the host could not do what it was asked.
#[derive(Clone, Debug, PartialEq, Eq)]
pub enum HostError {
    /// The bytes are not a module that the engine accepts.
    Load,
    /// The module cannot be wired up. Where an import is defined by nothing,
    /// the first such import is named; no name stands for another mismatch
    /// between the module and what is there for it.
    Link(Option<ImportName>),
    /// The instance exports no function of that name with that signature.
    CallSignature,
    /// A fault ended the execution of a module's code.
    Trap,
}

/// A `HostError` with its strings as sequences of characters.
pub enum HostErrorView {
    Load,
    Link(Option<ImportKey>),
    CallSignature,
    Trap,
}

impl View for HostError {
    type V = HostErrorView;

    open spec fn view(&self) -> HostErrorView {
        match self {
            HostError::Load => HostErrorView::Load,
            HostError::Link(Some(import)) => HostErrorView::Link(Some(import@)),
            HostError::Link(None) => HostErrorView::Link(None),
            HostError::CallSignature => HostErrorView::CallSignature,
            HostError::Trap => HostErrorView::Trap,
        }
    }
}

/// Whether `r` is the failure `error`.
pub open spec fn fails_with<T>(r: Result<T, HostError>, error: HostErrorView) -> bool {
    r matches Err(e) && e@ == error
}

/// How the engine failed to instantiate a module.
pub enum InstantiationFailure {
    /// An import that the linker does not define.
    Unresolved { namespace: String, name: String },
    /// A trap while the module was being set up or started.
    Trapped,
    /// Anything else: an import defined with another type, or a resource
    /// that the engine could not get.
    Other,
}

/// Sorts a failed instantiation into the host's errors: an unresolved import
/// is a link error that names it, a trap is a trap, and what remains is a
/// link error without a name.
pub fn link_error_of(failure: InstantiationFailure) -> (error: HostError)
    ensures
        error@ == match failure {
            InstantiationFailure::Unresolved { namespace, name } => HostErrorView::Link(
                Some((namespace@, name@)),
            ),
            InstantiationFailure::Trapped => HostErrorView::Trap,
            InstantiationFailure::Other => HostErrorView::Link(None),
        },
{
    match failure {
        InstantiationFailure::Unresolved { namespace, name } => HostError::Link(
            Some(ImportName { namespace, name }),
        ),
        InstantiationFailure::Trapped => HostError::Trap,
        InstantiationFailure::Other => HostError::Link(None),
    }
}

/// The step at which a host could not be started.
pub enum StartFailure {
    /// The engine did not come up.
    Engine,
    /// The system interface could not be defined in the import environment.
    SystemInterface,
}

/// The error of a failed start: without an engine no module can be loaded,
/// a load error; a system interface that cannot be defined is a link error
/// that names no import.
pub open spec fn start_error(failure: StartFailure) -> HostErrorView {
    match failure {
        StartFailure::Engine => HostErrorView::Load,
        StartFailure::SystemInterface => HostErrorView::Link(None),
    }
}

/// Sorts a failed start into the host's errors.
pub fn start_error_of(failure: StartFailure) -> (error: HostError)
    ensures
        error@ == start_error(failure),
{
    match failure {
        StartFailure::Engine => HostError::Load,
        StartFailure::SystemInterface => HostError::Link(None),
    }
}

/// Makes an engine with the default configuration, by `Engine::new` on
/// `Config::default`. Whether the engine comes up is not claimed; one that
/// does is synchronous, as that configuration is.
#[verifier::external_body]
fn new_engine() -> (r: Result<Engine, Error>)
    ensures
        r matches Ok(engine) ==> engine_synchronous(engine),
{
    Engine::new(&Config::default())
}

/// Makes a linker for `engine`, by `Linker::new`: it defines no name, so it
/// can serve every store, and it does not allow shadowing.
#[verifier::external_body]
fn new_linker(engine: &Engine) -> (linker: Linker<WasiCtx>)
    ensures
        linker_of(linker, *engine),
        linker_names(linker) == Set::<ImportKey>::empty(),
        !linker_shadows(linker),
        forall|store: Store<WasiCtx>| #[trigger] linker_serves(linker, store),
{
    Linker::new(engine)
}

/// Defines the functions of the system interface in `linker`, by
/// `wasmtime_wasi::add_to_linker`; each reaches the `WasiCtx` that is the
/// store's data.
///
/// The function only defines functions of the host, one after the other:
/// whatever the outcome, no name is taken away, the linker stays with its
/// engine and keeps its shadowing, and it can serve the stores that it could
/// serve. Which names it defines, and whether it succeeds, is not claimed.
#[verifier::external_body]
fn add_wasi(linker: &mut Linker<WasiCtx>) -> (r: Result<(), Error>)
    ensures
        linker_names(*old(linker)).subset_of(linker_names(*final(linker))),
        linker_shadows(*final(linker)) == linker_shadows(*old(linker)),
        linker_persists(*old(linker), *final(linker)),
        forall|store: Store<WasiCtx>| #[trigger]
            linker_serves(*old(linker), store) ==> linker_serves(*final(linker), store),
{
    wasmtime_wasi::add_to_linker(linker, |wasi| wasi)
}

/// Sets whether later definitions may replace earlier ones, by
/// `Linker::allow_shadowing`, which stores the flag and touches nothing else.
#[verifier::external_body]
fn set_shadowing(linker: &mut Linker<WasiCtx>, allow: bool)
    ensures
        linker_shadows(*final(linker)) == allow,
        linker_names(*final(linker)) == linker_names(*old(linker)),
        linker_persists(*old(linker), *final(linker)),
        forall|store: Store<WasiCtx>| #[trigger]
            linker_serves(*old(linker), store) ==> linker_serves(*final(linker), store),
{
    linker.allow_shadowing(allow);
}

/// Makes a store for `engine` that owns `wasi`, by `Store::new`. The store
/// is synchronous exactly when the engine is.
#[verifier::external_body]
fn new_store(engine: &Engine, wasi: WasiCtx) -> (store: Store<WasiCtx>)
    ensures
        store_of(store, *engine),
        store_synchronous(store) == engine_synchronous(*engine),
{
    Store::new(engine, wasi)
}

/// Compiles a module from its binary or text form, by `Module::new`.
///
/// Whether an engine takes the bytes, and what module it makes of them,
/// depends on the engine's configuration and the bytes and on nothing else.
/// The contract claims that: the outcome is what `compiled_imports` names.
#[verifier::external_body]
fn compile(engine: &Engine, bytes: &[u8]) -> (r: Result<Module, Error>)
    ensures
        match compiled_imports(*engine, bytes@) {
            Some(imports) => r matches Ok(module) && module_imports(module) == imports,
            None => r is Err,
        },
{
    Module::new(engine, bytes)
}

/// Instantiates `module` in `store` with its imports taken from `linker`, by
/// `Linker::instantiate`, and tells the kinds of failure apart by
/// `anyhow::Error::downcast_ref`.
///
/// `Linker::instantiate` panics when `linker` and `store` belong to
/// different engines, when a definition in `linker` belongs to another
/// store, or when the store is asynchronous: the `requires` leaves these out.
///
/// The linker looks up the module's imports one after the other, in their
/// order, before it creates anything, and gives up at the first that it does
/// not define, with an `UnknownImportError` that holds the import's namespace
/// and name. The contract claims this, and that no other failure is an
/// `UnknownImportError`. It claims further that the store stays what it is,
/// and holds the new instance where there is one. When the call succeeds
/// and which other failure comes is not claimed.
#[verifier::external_body]
fn instantiate_module(
    linker: &Linker<WasiCtx>,
    store: &mut Store<WasiCtx>,
    module: &Module,
) -> (r: Result<Instance, InstantiationFailure>)
    requires
        of_one_engine(*linker, *old(store)),
        linker_serves(*linker, *old(store)),
        store_synchronous(*old(store)),
    ensures
        match first_unresolved(module_imports(*module), linker_names(*linker)) {
            Some(key) => r matches Err(InstantiationFailure::Unresolved { namespace, name })
                && (namespace@, name@) == key,
            None => !(r matches Err(InstantiationFailure::Unresolved { .. })),
        },
        store_persists(*old(store), *final(store)),
        r matches Ok(instance) ==> instance_exports(*final(store), instance) is Some,
{
    match linker.instantiate(store, module) {
        Ok(instance) => Ok(instance),
        Err(error) => Err(
            match error.downcast_ref::<UnknownImportError>() {
                Some(unknown) => InstantiationFailure::Unresolved {
                    namespace: unknown.module().to_string(),
                    name: unknown.name().to_string(),
                },
                None if error.is::<Trap>() => InstantiationFailure::Trapped,
                None => InstantiationFailure::Other,
            },
        ),
    }
}

/// Defines every export of `instance` in `linker` under `namespace`, each
/// under its own name, by `Linker::instance`.
///
/// `Linker::instance` panics when `instance` does not live in `store`: the
/// `requires` leaves that out.
///
/// The contract claims what the method's source shows. It makes one
/// insertion for each export of the instance, under `namespace` and the
/// export's name, so after a success the names are those from before and
/// these. It only inserts, so whatever the outcome every name defined before
/// is defined after, and every new name has `namespace` as its namespace. It
/// fails only on a name defined twice, and never where the linker allows
/// shadowing; it leaves that flag alone. What it defines lives in `store`,
/// so a linker that could serve the store still can. The store stays what
/// it is, and the linker stays with its engine.
#[verifier::external_body]
fn define_instance(
    linker: &mut Linker<WasiCtx>,
    store: &mut Store<WasiCtx>,
    namespace: &str,
    instance: &Instance,
) -> (r: Result<(), Error>)
    requires
        instance_exports(*old(store), *instance) is Some,
    ensures
        r is Ok ==> extended_by(
            linker_names(*old(linker)),
            linker_names(*final(linker)),
            namespace@,
            instance_exports(*old(store), *instance),
        ),
        linker_names(*old(linker)).subset_of(linker_names(*final(linker))),
        forall|key: ImportKey| #[trigger]
            linker_names(*final(linker)).contains(key) ==> linker_names(*old(linker)).contains(
                key,
            ) || key.0 == namespace@,
        linker_shadows(*final(linker)) == linker_shadows(*old(linker)),
        linker_shadows(*old(linker)) ==> r is Ok,
        linker_persists(*old(linker), *final(linker)),
        linker_serves(*old(linker), *old(store)) ==> linker_serves(*final(linker), *final(store)),
        store_persists(*old(store), *final(store)),
{
    match linker.instance(store, namespace, *instance) {
        Ok(_) => Ok(()),
        Err(error) => Err(error),
    }
}

/// Looks up the export `name` of `instance` as a function without
/// parameters that returns one word, by `Instance::get_typed_func`.
///
/// `Instance::get_typed_func` panics when `instance` does not live in
/// `store`: the `requires` leaves that out.
///
/// The method succeeds exactly when the instance has an export of that name
/// that is a function of that type: the contract says so by
/// `exports_word_function`. The function that it returns is one that the
/// store holds. The store stays what it is.
#[verifier::external_body]
fn typed_nullary(instance: &Instance, store: &mut Store<WasiCtx>, name: &str) -> (r: Result<
    TypedFunc<(), i32>,
    Error,
>)
    requires
        instance_exports(*old(store), *instance) is Some,
    ensures
        r is Ok <==> exports_word_function(*old(store), *instance, name@, 0),
        r matches Ok(function) ==> holds_nullary(*final(store), function),
        store_persists(*old(store), *final(store)),
{
    instance.get_typed_func::<(), i32>(store, name)
}

/// Looks up the export `name` of `instance` as a function of two words that
/// returns one word, by `Instance::get_typed_func`. The contract is that of
/// `typed_nullary`, for two parameters.
#[verifier::external_body]
fn typed_binary(instance: &Instance, store: &mut Store<WasiCtx>, name: &str) -> (r: Result<
    TypedFunc<(i32, i32), i32>,
    Error,
>)
    requires
        instance_exports(*old(store), *instance) is Some,
    ensures
        r is Ok <==> exports_word_function(*old(store), *instance, name@, 2),
        r matches Ok(function) ==> holds_binary(*final(store), function),
        store_persists(*old(store), *final(store)),
{
    instance.get_typed_func::<(i32, i32), i32>(store, name)
}

/// Calls a function without parameters, by `TypedFunc::call`.
///
/// `TypedFunc::call` panics when the store does not hold the function, or
/// when the store is asynchronous: the `requires` leaves both out.
///
/// Of the outcome nothing is claimed, only that the store stays what it
/// is; the call returns when the module's code does.
#[verifier::external_body]
fn call_nullary(function: &TypedFunc<(), i32>, store: &mut Store<WasiCtx>) -> (r: Result<
    i32,
    Error,
>)
    requires
        holds_nullary(*old(store), *function),
        store_synchronous(*old(store)),
    ensures
        store_persists(*old(store), *final(store)),
{
    function.call(store, ())
}

/// Calls a function of two words, by `TypedFunc::call`. The contract is
/// that of `call_nullary`.
#[verifier::external_body]
fn call_binary(
    function: &TypedFunc<(i32, i32), i32>,
    store: &mut Store<WasiCtx>,
    first: i32,
    second: i32,
) -> (r: Result<i32, Error>)
    requires
        holds_binary(*old(store), *function),
        store_synchronous(*old(store)),
    ensures
        store_persists(*old(store), *final(store)),
{
    function.call(store, (first, second))
}

/// A module that a host has loaded, by its place among the host's modules.
#[derive(Clone, Copy, Debug, PartialEq, Eq)]
pub struct ModuleId(pub usize);

/// An instance that a host has created, by its place among the host's
/// instances.
#[derive(Clone, Copy, Debug, PartialEq, Eq)]
pub struct InstanceId(pub usize);

/// One session of the module host: an engine, the import environment, the
/// store in which instances live, and the modules and instances made so far.
///
/// All of them are made by the host itself and never leave it, so every
/// host is well formed: its linker and its store belong to its engine, the
/// store is synchronous, the linker defines only what lives in the store,
/// and the store holds every instance on record. `new` makes such a host
/// and every method keeps it so.
pub struct Host {
    engine: Engine,
    linker: Linker<WasiCtx>,
    store: Store<WasiCtx>,
    modules: Vec<Module>,
    instances: Vec<Instance>,
}

impl Host {
    /// Whether the parts of the host belong together: see `Host`.
    pub closed spec fn well_formed(&self) -> bool {
        &&& linker_of(self.linker, self.engine)
        &&& store_of(self.store, self.engine)
        &&& store_synchronous(self.store)
        &&& linker_serves(self.linker, self.store)
        &&& forall|k: int|
            0 <= k < self.instances@.len() ==> instance_exports(
                self.store,
                #[trigger] self.instances@[k],
            ) is Some
    }

    /// How many modules the host has loaded.
    pub closed spec fn module_count(&self) -> nat {
        self.modules@.len()
    }

    /// How many instances the host has created.
    pub closed spec fn instance_count(&self) -> nat {
        self.instances@.len()
    }

    /// The names that the import environment defines.
    pub closed spec fn defined_names(&self) -> Set<ImportKey> {
        linker_names(self.linker)
    }

    /// What the host's engine makes of the binary or text form of a module:
    /// nothing, where it refuses the bytes, or else a module that declares
    /// these imports.
    pub closed spec fn compiles_to(&self, bytes: Seq<u8>) -> Option<Seq<ImportKey>> {
        compiled_imports(self.engine, bytes)
    }

    /// The imports that a loaded module declares, in their order.
    pub closed spec fn imports_of(&self, module: ModuleId) -> Seq<ImportKey>
        recommends
            module.0 < self.module_count(),
    {
        module_imports(self.modules@[module.0 as int])
    }

    /// The names of the exports of an instance, once the host has created
    /// it.
    pub closed spec fn exports_of(&self, instance: InstanceId) -> Option<Set<Seq<char>>>
        recommends
            instance.0 < self.instance_count(),
    {
        instance_exports(self.store, self.instances@[instance.0 as int])
    }

    /// Whether an instance exports, under `name`, a function that takes
    /// `parameters` words and returns one word.
    pub closed spec fn exports_function(
        &self,
        instance: InstanceId,
        name: Seq<char>,
        parameters: nat,
    ) -> bool
        recommends
            instance.0 < self.instance_count(),
    {
        exports_word_function(
            self.store,
            self.instances@[instance.0 as int],
            name,
            parameters,
        )
    }

    /// Starts a session whose instances reach the system through `wasi`: a
    /// host without modules and without instances. The engine decides
    /// whether it comes up and whether it takes the system interface; where
    /// it does not, the error is that of the step, by `start_error`.
    pub fn new(wasi: WasiCtx) -> (r: Result<Host, HostError>)
        ensures
            r matches Ok(host) ==> host.well_formed() && host.module_count() == 0
                && host.instance_count() == 0,
            r is Err ==> fails_with(r, start_error(StartFailure::Engine)) || fails_with(
                r,
                start_error(StartFailure::SystemInterface),
            ),
    {
        let engine = match new_engine() {
            Ok(engine) => engine,
            Err(_) => {
                return Err(start_error_of(StartFailure::Engine));
            },
        };
        let mut linker = new_linker(&engine);
        let ghost empty = linker;
        if add_wasi(&mut linker).is_err() {
            return Err(start_error_of(StartFailure::SystemInterface));
        }
        let store = new_store(&engine, wasi);
        assert(linker_serves(empty, store));
        Ok(Host { engine, linker, store, modules: Vec::new(), instances: Vec::new() })
    }

    /// Loads a module from its binary or text form. Where the engine takes
    /// the bytes, the module becomes the host's next one, with the imports
    /// that the bytes declare; where it refuses them, that is a load error
    /// and the host is as before.
    pub fn load(&mut self, bytes: &[u8]) -> (r: Result<ModuleId, HostError>)
        requires
            old(self).well_formed(),
        ensures
            final(self).well_formed(),
            keeps(old(self), final(self)),
            final(self).instance_count() == old(self).instance_count(),
            final(self).defined_names() == old(self).defined_names(),
            match old(self).compiles_to(bytes@) {
                Some(imports) => {
                    &&& r == Ok::<ModuleId, HostError>(nth_module(old(self).module_count()))
                    &&& final(self).module_count() == old(self).module_count() + 1
                    &&& final(self).imports_of(nth_module(old(self).module_count())) == imports
                },
                None => fails_with(r, HostErrorView::Load) && final(self).module_count() == old(
                    self,
                ).module_count(),
            },
    {
        match compile(&self.engine, bytes) {
            Ok(module) => {
                let id = ModuleId(self.modules.len());
                self.modules.push(module);
                Ok(id)
            },
            Err(_) => Err(HostError::Load),
        }
    }

    /// Creates an instance of a loaded module, with each of its imports
    /// taken from the import environment.
    ///
    /// If the environment lacks one of the module's imports, the result is
    /// the link error that names the first such import, and no instance is
    /// created. No other failure names an import. A new instance is the
    /// host's next one. A handle that is not of this host is a load error.
    pub fn instantiate(&mut self, module: ModuleId) -> (r: Result<InstanceId, HostError>)
        requires
            old(self).well_formed(),
        ensures
            final(self).well_formed(),
            keeps(old(self), final(self)),
            final(self).module_count() == old(self).module_count(),
            final(self).defined_names() == old(self).defined_names(),
            match r {
                Ok(id) => {
                    &&& id == nth_instance(old(self).instance_count())
                    &&& final(self).instance_count() == old(self).instance_count() + 1
                    &&& final(self).exports_of(id) is Some
                },
                Err(_) => final(self).instance_count() == old(self).instance_count(),
            },
            module.0 >= old(self).module_count() ==> fails_with(r, HostErrorView::Load),
            module.0 < old(self).module_count() ==> match first_unresolved(
                old(self).imports_of(module),
                old(self).defined_names(),
            ) {
                Some(key) => fails_with(r, HostErrorView::Link(Some(key))),
                None => r is Err ==> fails_with(r, HostErrorView::Link(None)) || fails_with(
                    r,
                    HostErrorView::Trap,
                ),
            },
    {
        if module.0 >= self.modules.len() {
            return Err(HostError::Load);
        }
        match instantiate_module(&self.linker, &mut self.store, &self.modules[module.0]) {
            Ok(instance) => {
                let id = InstanceId(self.instances.len());
                self.instances.push(instance);
                Ok(id)
            },
            Err(failure) => Err(link_error_of(failure)),
        }
    }

    /// Puts every export of an instance into the import environment under
    /// `namespace`, for modules instantiated afterwards. A name that was
    /// defined before under that namespace now means the new export.
    ///
    /// Publishing an instance of this host always succeeds, and the names
    /// defined afterwards are those from before and one for each export of
    /// the instance. A handle that is not of this host is a link error, and
    /// nothing changes.
    pub fn publish(&mut self, instance: InstanceId, namespace: &str) -> (r: Result<(), HostError>)
        requires
            old(self).well_formed(),
        ensures
            final(self).well_formed(),
            keeps(old(self), final(self)),
            final(self).module_count() == old(self).module_count(),
            final(self).instance_count() == old(self).instance_count(),
            instance.0 < old(self).instance_count() ==> r is Ok && publication(
                old(self),
                final(self),
                instance,
                namespace@,
            ),
            instance.0 >= old(self).instance_count() ==> fails_with(r, HostErrorView::Link(None))
                && final(self).defined_names() == old(self).defined_names(),
    {
        if instance.0 >= self.instances.len() {
            return Err(HostError::Link(None));
        }
        set_shadowing(&mut self.linker, true);
        match define_instance(
            &mut self.linker,
            &mut self.store,
            namespace,
            &self.instances[instance.0],
        ) {
            Ok(_) => Ok(()),
            Err(_) => Err(HostError::Link(None)),
        }
    }

    /// Calls the export `name` of an instance with no argument or with two,
    /// and returns the one word that it gives back.
    ///
    /// The host offers these two signatures: any other number of arguments
    /// is a signature error, as is a handle that is not of this host, and
    /// as is a name under which the instance exports no function that takes
    /// so many words and returns one. Nothing else is a signature error.
    /// Whether the function's code runs to its end, the engine decides: if
    /// not, that is a trap.
    pub fn invoke(&mut self, instance: InstanceId, name: &str, args: &[i32]) -> (r: Result<
        i32,
        HostError,
    >)
        requires
            old(self).well_formed(),
        ensures
            final(self).well_formed(),
            keeps(old(self), final(self)),
            final(self).module_count() == old(self).module_count(),
            final(self).instance_count() == old(self).instance_count(),
            final(self).defined_names() == old(self).defined_names(),
            fails_with(r, HostErrorView::CallSignature) <==> !old(self).callable(
                instance,
                name@,
                args@.len(),
            ),
            r is Err ==> fails_with(r, HostErrorView::CallSignature) || fails_with(
                r,
                HostErrorView::Trap,
            ),
    {
        if instance.0 >= self.instances.len() {
            return Err(HostError::CallSignature);
        }
        if args.len() == 0 {
            match typed_nullary(&self.instances[instance.0], &mut self.store, name) {
                Ok(function) => match call_nullary(&function, &mut self.store) {
                    Ok(word) => Ok(word),
                    Err(_) => Err(HostError::Trap),
                },
                Err(_) => Err(HostError::CallSignature),
            }
        } else if args.len() == 2 {
            match typed_binary(&self.instances[instance.0], &mut self.store, name) {
                Ok(function) => match call_binary(&function, &mut self.store, args[0], args[1]) {
                    Ok(word) => Ok(word),
                    Err(_) => Err(HostError::Trap),
                },
                Err(_) => Err(HostError::CallSignature),
            }
        } else {
            Err(HostError::CallSignature)
        }
    }

    /// Whether `invoke` finds something to call: the handle is of this
    /// host, the arguments are none or two, and the instance exports under
    /// `name` a function that takes so many words and returns one.
    pub open spec fn callable(&self, instance: InstanceId, name: Seq<char>, arguments: nat) -> bool {
        &&& instance.0 < self.instance_count()
        &&& arguments == 0 || arguments == 2
        &&& self.exports_function(instance, name, arguments)
    }

    /// Runs a module against a library module: loads and instantiates the
    /// library, publishes its exports under `namespace`, loads and
    /// instantiates the dependent module, and calls the latter's export
    /// `entry` without arguments. The first step that fails ends the run,
    /// and its error is the result.
    ///
    /// The library is the host's next module and instance, the dependent
    /// module the one after. What the run leaves behind tells the step at
    /// which it ended, and with it the result: see `linked_run`.
    pub fn run_linked(
        &mut self,
        library: &[u8],
        namespace: &str,
        dependent: &[u8],
        entry: &str,
    ) -> (r: Result<i32, HostError>)
        requires
            old(self).well_formed(),
        ensures
            final(self).well_formed(),
            linked_run(old(self), final(self), library@, namespace@, dependent@, entry@, r),
    {
        let library_module = self.load(library)?;
        let library_instance = self.instantiate(library_module)?;
        self.publish(library_instance, namespace)?;
        let dependent_module = self.load(dependent)?;
        let dependent_instance = self.instantiate(dependent_module)?;
        self.invoke(dependent_instance, entry, &[])
    }

    /// Runs a compiled program against the primitive library: `run_linked`
    /// with the library under `LIBRARY_NAMESPACE` and the program's
    /// `ENTRY_POINT`. The word that comes back is the program's result, still
    /// tagged. What holds of a linked run holds of this one, with
    /// `LIBRARY_NAMESPACE` as the namespace and `ENTRY_POINT` as the entry.
    pub fn run_program(&mut self, library: &[u8], program: &[u8]) -> (r: Result<i32, HostError>)
        requires
            old(self).well_formed(),
        ensures
            final(self).well_formed(),
            linked_run(
                old(self),
                final(self),
                library@,
                LIBRARY_NAMESPACE@,
                program@,
                ENTRY_POINT@,
                r,
            ),
    {
        self.run_linked(library, LIBRARY_NAMESPACE, program, ENTRY_POINT)
    }
}

/// The handle of the module that a host loads when it holds `count` modules.
pub open spec fn nth_module(count: nat) -> ModuleId {
    ModuleId(count as usize)
}

/// The handle of the instance that a host creates when it holds `count`
/// instances.
pub open spec fn nth_instance(count: nat) -> InstanceId {
    InstanceId(count as usize)
}

/// A host keeps what it holds: whatever it does, its engine compiles as
/// before, and the modules and instances that it had are still there, with
/// the same imports and the same exports.
pub open spec fn keeps(before: &Host, after: &Host) -> bool {
    &&& before.module_count() <= after.module_count()
    &&& before.instance_count() <= after.instance_count()
    &&& forall|bytes: Seq<u8>| #[trigger] after.compiles_to(bytes) == before.compiles_to(bytes)
    &&& forall|module: ModuleId|
        module.0 < before.module_count() ==> #[trigger] after.imports_of(module)
            == before.imports_of(module)
    &&& forall|instance: InstanceId|
        instance.0 < before.instance_count() && #[trigger] before.exports_of(instance) is Some ==> {
            &&& after.exports_of(instance) == before.exports_of(instance)
            &&& forall|name: Seq<char>, parameters: nat| #[trigger]
                after.exports_function(instance, name, parameters) == before.exports_function(
                    instance,
                    name,
                    parameters,
                )
        }
}

/// What a publication has done: the instance has exports, and the names
/// defined `after` are those defined `before` and one under `namespace` for
/// each of them.
pub open spec fn publication(
    before: &Host,
    after: &Host,
    instance: InstanceId,
    namespace: Seq<char>,
) -> bool {
    extended_by(
        before.defined_names(),
        after.defined_names(),
        namespace,
        before.exports_of(instance),
    )
}

/// A second publication of an instance under the same namespace defines
/// nothing that the first did not: the import environment names the same
/// things after both as after the first.
pub proof fn lemma_second_publication_adds_nothing(
    before: &Host,
    once: &Host,
    twice: &Host,
    instance: InstanceId,
    namespace: Seq<char>,
)
    requires
        instance.0 < before.instance_count(),
        keeps(before, once),
        publication(before, once, instance, namespace),
        publication(once, twice, instance, namespace),
    ensures
        twice.defined_names() == once.defined_names(),
{
    assert(once.exports_of(instance) == before.exports_of(instance));
    assert(twice.defined_names() =~= once.defined_names());
}

/// What a failed instantiation returns, given the first import that the
/// environment lacked: the link error that names it, if there was one;
/// if not, a link error without a name or a trap.
pub open spec fn instantiation_failed<T>(r: Result<T, HostError>, missing: Option<ImportKey>) -> bool {
    match missing {
        Some(key) => fails_with(r, HostErrorView::Link(Some(key))),
        None => fails_with(r, HostErrorView::Link(None)) || fails_with(r, HostErrorView::Trap),
    }
}

/// What a linked run that ended in `r` has made of the host `before` it.
///
/// The host keeps what it held. The library is the module loaded first and
/// the instance created first, the dependent module and its instance the
/// ones after. How many modules and instances the run has added tells the
/// step at which it ended, and the step tells the result:
///
/// - no module: the engine refused the library's bytes, a load error, and
///   no name was defined;
/// - the library, no instance: it could not be instantiated, and no name
///   was defined;
/// - the library and its instance: the engine refused the dependent
///   module's bytes, a load error;
/// - both modules, one instance: the dependent module could not be
///   instantiated against the environment with the library in it;
/// - both modules and both instances: the entry point was called, and the
///   result is its word, a trap, or a signature error exactly where the
///   dependent instance exports no such function.
///
/// Wherever the library has an instance, the names defined are those from
/// before and one under `namespace` for each export of the library.
pub open spec fn linked_run(
    before: &Host,
    after: &Host,
    library: Seq<u8>,
    namespace: Seq<char>,
    dependent: Seq<u8>,
    entry: Seq<char>,
    r: Result<i32, HostError>,
) -> bool {
    let library_module = nth_module(before.module_count());
    let dependent_module = nth_module(before.module_count() + 1);
    let library_instance = nth_instance(before.instance_count());
    let dependent_instance = nth_instance(before.instance_count() + 1);
    let modules = after.module_count() - before.module_count();
    let instances = after.instance_count() - before.instance_count();
    &&& keeps(before, after)
    &&& if modules == 0 {
        &&& before.compiles_to(library) is None
        &&& instances == 0
        &&& after.defined_names() == before.defined_names()
        &&& fails_with(r, HostErrorView::Load)
    } else if instances == 0 {
        &&& modules == 1
        &&& before.compiles_to(library) == Some(after.imports_of(library_module))
        &&& after.defined_names() == before.defined_names()
        &&& instantiation_failed(
            r,
            first_unresolved(after.imports_of(library_module), before.defined_names()),
        )
    } else {
        &&& before.compiles_to(library) == Some(after.imports_of(library_module))
        &&& first_unresolved(after.imports_of(library_module), before.defined_names()) is None
        &&& extended_by(
            before.defined_names(),
            after.defined_names(),
            namespace,
            after.exports_of(library_instance),
        )
        &&& if modules == 1 {
            &&& instances == 1
            &&& before.compiles_to(dependent) is None
            &&& fails_with(r, HostErrorView::Load)
        } else {
            &&& modules == 2
            &&& before.compiles_to(dependent) == Some(after.imports_of(dependent_module))
            &&& if instances == 1 {
                instantiation_failed(
                    r,
                    first_unresolved(after.imports_of(dependent_module), after.defined_names()),
                )
            } else {
                &&& instances == 2
                &&& first_unresolved(after.imports_of(dependent_module), after.defined_names())
                    is None
                &&& fails_with(r, HostErrorView::CallSignature) <==> !after.exports_function(
                    dependent_instance,
                    entry,
                    0,
                )
                &&& r is Err ==> fails_with(r, HostErrorView::CallSignature) || fails_with(
                    r,
                    HostErrorView::Trap,
                )
            }
        }
    }
}

} // verus!
