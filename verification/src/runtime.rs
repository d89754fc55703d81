//! The sandbox runtime, as far as the dispatcher relies on it.
//!
//! Everything in this file is trusted: the types are opaque to the verifier,
//! and each function's contract is taken from the runtime's sources, not
//! proved. The functions are private to the crate. Each makes one call, or
//! one chain of builder calls, and decides nothing.

use crate::host::Host;
use crate::input::texts;
use vstd::prelude::*;

verus! {

#[verifier::external_type_specification]
#[verifier::external_body]
pub struct ExEngine(wasmtime::Engine);

#[verifier::external_type_specification]
#[verifier::external_body]
#[verifier::reject_recursive_types(T)]
pub struct ExStore<T>(wasmtime::Store<T>);

#[verifier::external_type_specification]
#[verifier::external_body]
#[verifier::reject_recursive_types(T)]
pub struct ExLinker<T>(wasmtime::component::Linker<T>);

#[verifier::external_type_specification]
#[verifier::external_body]
pub struct ExComponent(wasmtime::component::Component);

#[verifier::external_type_specification]
#[verifier::external_body]
pub struct ExInstance(wasmtime::component::Instance);

#[verifier::external_type_specification]
#[verifier::external_body]
pub struct ExFunc(wasmtime::component::Func);

#[verifier::external_type_specification]
#[verifier::external_body]
#[verifier::reject_recursive_types(Params)]
#[verifier::reject_recursive_types(Return)]
pub struct ExTypedFunc<Params, Return>(wasmtime::component::TypedFunc<Params, Return>);

#[verifier::external_type_specification]
#[verifier::external_body]
pub struct ExError(anyhow::Error);

/// The `eval` export of a command module: arguments in, text out.
pub type EvalFunc = wasmtime::component::TypedFunc<(Vec<String>,), (String,)>;

/// The `load` export of the loader module: a name in, bytecode or the
/// loader's own error message out.
pub type LoadFunc = wasmtime::component::TypedFunc<(String,), (Result<Vec<u8>, String>,)>;

/// Whether the engine runs guests synchronously, that is, was configured
/// without `async_support`. The runtime panics where a synchronous entry
/// point is used with a store of an engine with that support.
pub uninterp spec fn engine_is_sync(engine: wasmtime::Engine) -> bool;

/// The engine that `Store::engine` returns: the one the store was made for.
pub uninterp spec fn store_engine(store: wasmtime::Store<Host>) -> wasmtime::Engine;

/// The identity of a store, which the runtime stamps on every instance and
/// function that lives in the store. It never changes.
pub uninterp spec fn store_id(store: wasmtime::Store<Host>) -> int;

/// The engine that `Linker::engine` returns: the one the linker was made for.
pub uninterp spec fn linker_engine(linker: wasmtime::component::Linker<Host>) -> wasmtime::Engine;

/// The engine that compiled the component.
pub uninterp spec fn component_engine(component: wasmtime::component::Component) -> wasmtime::Engine;

/// The bytes that the component was compiled from.
pub uninterp spec fn component_source(component: wasmtime::component::Component) -> Seq<u8>;

/// The identity of the store that owns the instance.
pub uninterp spec fn instance_store(instance: wasmtime::component::Instance) -> int;

/// The identity of the store that owns the function.
pub uninterp spec fn eval_store(func: EvalFunc) -> int;

/// The identity of the store that owns the function.
pub uninterp spec fn load_store(func: LoadFunc) -> int;

/// The text that an error displays as.
pub uninterp spec fn error_message(error: anyhow::Error) -> Seq<char>;

/// Whether the runtime can refuse to start with this message.
pub uninterp spec fn engine_refusal(message: Seq<char>) -> bool;

/// Whether the runtime can refuse to link the WASI interfaces with this
/// message.
pub uninterp spec fn linking_refusal(message: Seq<char>) -> bool;

/// Whether the runtime can refuse to compile `source` with this message.
/// There may be more than one such message for the same bytes.
pub uninterp spec fn compile_refusal(source: Seq<u8>, message: Seq<char>) -> bool;

/// One thing done in a store, with what was handed over and what came back.
pub enum Entry {
    /// A guest was to be made of `component`. What came back is the
    /// instance, or what the runtime said of the failure.
    Instantiate {
        component: wasmtime::component::Component,
        made: Result<wasmtime::component::Instance, Seq<char>>,
    },
    /// The export `export` of `instance` was looked up as a function of
    /// the type that its caller needs. What came back is nothing to report,
    /// or what the runtime said of the failure.
    Lookup { instance: wasmtime::component::Instance, export: Seq<char>, failure: Option<Seq<char>> },
    /// `instance` was asked whether it exports a function under the name
    /// `export`, of whatever type.
    Probe { instance: wasmtime::component::Instance, export: Seq<char>, found: bool },
    /// A command's export was called on `args`. What came back is the text
    /// that the command returned, or what the runtime said of the failure.
    Eval { args: Seq<Seq<char>>, returned: Result<Seq<char>, Seq<char>> },
    /// A loader's export was called on `name`. What came back is what the
    /// loader returned, bytecode or its own message, or what the runtime
    /// said of the failure.
    Load { name: Seq<char>, delivered: Result<Result<Seq<u8>, Seq<char>>, Seq<char>> },
}

/// Everything that was done in the store since it was made, oldest first:
/// every instantiation, every lookup of an export and every call that
/// entered it. The runtime keeps no such list; it stands for the history of
/// the store, and each function below that enters a store says what it adds.
pub uninterp spec fn deeds(store: wasmtime::Store<Host>) -> Seq<Entry>;

/// The name of the export of a command.
pub open spec fn eval_name() -> Seq<char> {
    seq!['e', 'v', 'a', 'l']
}

/// The name of the export of a loader.
pub open spec fn load_name() -> Seq<char> {
    seq!['l', 'o', 'a', 'd']
}

/// What the runtime said where it refused, and nothing where it did not.
pub open spec fn refusal<T>(made: Result<T, anyhow::Error>) -> Option<Seq<char>> {
    match made {
        Ok(_) => None,
        Err(error) => Some(error_message(error)),
    }
}

/// The entry of an instantiation.
pub open spec fn instantiated(
    component: wasmtime::component::Component,
    made: Result<wasmtime::component::Instance, anyhow::Error>,
) -> Entry {
    Entry::Instantiate {
        component,
        made: match made {
            Ok(instance) => Ok(instance),
            Err(error) => Err(error_message(error)),
        },
    }
}

/// The entry of a lookup.
pub open spec fn looked_up(
    instance: wasmtime::component::Instance,
    export: Seq<char>,
    failure: Option<Seq<char>>,
) -> Entry {
    Entry::Lookup { instance, export, failure }
}

/// The entry of a probe.
pub open spec fn probed(
    instance: wasmtime::component::Instance,
    export: Seq<char>,
    found: bool,
) -> Entry {
    Entry::Probe { instance, export, found }
}

/// The entry of a call of a command.
pub open spec fn evaluated(args: Seq<Seq<char>>, returned: Result<String, anyhow::Error>) -> Entry {
    Entry::Eval {
        args,
        returned: match returned {
            Ok(text) => Ok(text@),
            Err(error) => Err(error_message(error)),
        },
    }
}

/// The entry of a call of a loader.
pub open spec fn asked(
    name: Seq<char>,
    returned: Result<Result<Vec<u8>, String>, anyhow::Error>,
) -> Entry {
    Entry::Load {
        name,
        delivered: match returned {
            Ok(Ok(bytecode)) => Ok(Ok(bytecode@)),
            Ok(Err(message)) => Ok(Err(message@)),
            Err(error) => Err(error_message(error)),
        },
    }
}

/// Whether two states of a store are states of one store: a call that
/// enters a store changes what is in it, never which store it is.
pub open spec fn same_store(before: wasmtime::Store<Host>, after: wasmtime::Store<Host>) -> bool {
    &&& store_id(after) == store_id(before)
    &&& store_engine(after) == store_engine(before)
}

/// Whether the synchronous entry points may be used with `store`.
pub open spec fn enterable(store: wasmtime::Store<Host>) -> bool {
    engine_is_sync(store_engine(store))
}

/// An engine with the default configuration.
///
/// Trusted: `Engine::new` on `Config::default()`. The default configuration
/// leaves `async_support` off. An error is returned where the configuration
/// does not suit this machine.
#[verifier::external_body]
pub(crate) fn new_engine() -> (made: Result<wasmtime::Engine, anyhow::Error>)
    ensures
        made matches Ok(engine) ==> engine_is_sync(engine),
        made matches Err(error) ==> engine_refusal(error_message(error)),
{
    wasmtime::Engine::new(&wasmtime::Config::default())
}

/// An engine with the default configuration but for the address space that
/// it sets aside for guest memories: a memory that can hold no more than
/// `reserved` bytes gets that much address space when it is made; a larger
/// one gets what it holds and `growth` bytes more, and moves when it
/// outgrows them. With `reserved` at zero no memory claims more address
/// space than it holds and `growth`.
///
/// Trusted: `Engine::new` on a `Config::new()` with
/// `static_memory_maximum_size` and `dynamic_memory_reserved_for_growth`
/// set. Neither setting turns `async_support` on.
#[verifier::external_body]
pub(crate) fn new_engine_reserving(reserved: u64, growth: u64) -> (made: Result<
    wasmtime::Engine,
    anyhow::Error,
>)
    ensures
        made matches Ok(engine) ==> engine_is_sync(engine),
        made matches Err(error) ==> engine_refusal(error_message(error)),
{
    let mut config = wasmtime::Config::new();
    config.static_memory_maximum_size(reserved).dynamic_memory_reserved_for_growth(growth);
    wasmtime::Engine::new(&config)
}

/// A store for `engine` that owns `host`.
///
/// Trusted: `Store::new`, which keeps a handle to the engine it is given.
#[verifier::external_body]
pub(crate) fn new_store(engine: &wasmtime::Engine, host: Host) -> (store: wasmtime::Store<Host>)
    ensures
        store_engine(store) == *engine,
        deeds(store) == Seq::<Entry>::empty(),
{
    wasmtime::Store::new(engine, host)
}

/// A linker for `engine` that defines nothing yet.
///
/// Trusted: `component::Linker::new`, which keeps a handle to the engine it
/// is given.
#[verifier::external_body]
pub(crate) fn new_linker(engine: &wasmtime::Engine) -> (linker: wasmtime::component::Linker<Host>)
    ensures
        linker_engine(linker) == *engine,
{
    wasmtime::component::Linker::new(engine)
}

/// Defines the synchronous WASI interfaces in `linker`. What a guest can
/// reach through them is decided by the context in its store.
///
/// Trusted: `wasmtime_wasi::command::sync::add_to_linker`, which adds
/// definitions to the linker and leaves its engine alone. It returns an
/// error where a name is already defined.
#[verifier::external_body]
pub(crate) fn add_wasi(linker: &mut wasmtime::component::Linker<Host>) -> (added: Result<
    (),
    anyhow::Error,
>)
    ensures
        linker_engine(*final(linker)) == linker_engine(*old(linker)),
        added matches Err(error) ==> linking_refusal(error_message(error)),
{
    wasmtime_wasi::command::sync::add_to_linker(linker)
}

/// Validates and compiles the binary form of a component.
///
/// Trusted: `component::Component::from_binary`. The component is compiled
/// from the bytes given and keeps a handle to the engine that compiled it.
/// An error is returned for bytes that are no valid binary component, the
/// text format among them.
#[verifier::external_body]
pub(crate) fn compile(engine: &wasmtime::Engine, bytecode: &Vec<u8>) -> (compiled: Result<
    wasmtime::component::Component,
    anyhow::Error,
>)
    ensures
        compiled matches Ok(component) ==> component_engine(component) == *engine
            && component_source(component) == bytecode@,
        compiled matches Err(error) ==> compile_refusal(bytecode@, error_message(error)),
{
    wasmtime::component::Component::from_binary(engine, bytecode)
}

/// Validates and compiles a component that is given in its binary form or
/// as text, as the file of a component may hold either.
///
/// Trusted: `component::Component::new`, which takes both forms where the
/// runtime is built with its `wat` feature, as it is by default. The
/// component is compiled from the bytes given and keeps a handle to the
/// engine that compiled it.
#[verifier::external_body]
pub(crate) fn compile_source(engine: &wasmtime::Engine, source: &Vec<u8>) -> (compiled: Result<
    wasmtime::component::Component,
    anyhow::Error,
>)
    ensures
        compiled matches Ok(component) ==> component_engine(component) == *engine
            && component_source(component) == source@,
        compiled matches Err(error) ==> compile_refusal(source@, error_message(error)),
{
    wasmtime::component::Component::new(engine, source)
}

/// Instantiates `component` in `store`, its imports satisfied by `linker`.
/// This runs the guest's start-up code and returns when that has ended.
///
/// Trusted: `component::Linker::instantiate`, which panics on a store with
/// `async_support`. The instance lives in the store it was made in. An error
/// is returned where the linker lacks an import, where one has the wrong
/// type, and where the guest traps.
#[verifier::external_body]
pub(crate) fn instantiate(
    linker: &wasmtime::component::Linker<Host>,
    store: &mut wasmtime::Store<Host>,
    component: &wasmtime::component::Component,
) -> (made: Result<wasmtime::component::Instance, anyhow::Error>)
    requires
        enterable(*old(store)),
        linker_engine(*linker) == store_engine(*old(store)),
        component_engine(*component) == store_engine(*old(store)),
    ensures
        same_store(*old(store), *final(store)),
        made matches Ok(instance) ==> instance_store(instance) == store_id(*old(store)),
        deeds(*final(store)) == deeds(*old(store)).push(instantiated(*component, made)),
{
    linker.instantiate(store, component)
}

/// Looks up the export `eval` of `instance` as a function from a list of
/// strings to a string.
///
/// Trusted: `component::Instance::get_typed_func`, which panics where the
/// store does not own the instance. The function lives in the same store.
/// An error is returned where no function is exported under that name and
/// where its type is another.
#[verifier::external_body]
pub(crate) fn eval_export(
    instance: &wasmtime::component::Instance,
    store: &mut wasmtime::Store<Host>,
) -> (found: Result<EvalFunc, anyhow::Error>)
    requires
        instance_store(*instance) == store_id(*old(store)),
    ensures
        same_store(*old(store), *final(store)),
        found matches Ok(func) ==> eval_store(func) == store_id(*old(store)),
        deeds(*final(store)) == deeds(*old(store)).push(
            looked_up(*instance, eval_name(), refusal(found)),
        ),
{
    instance.get_typed_func::<(Vec<String>,), (String,)>(store, "eval")
}

/// Looks up the export `load` of `instance` as a function from a string to
/// bytes or an error message.
///
/// Trusted: `component::Instance::get_typed_func`, as for `eval_export`.
#[verifier::external_body]
pub(crate) fn load_export(
    instance: &wasmtime::component::Instance,
    store: &mut wasmtime::Store<Host>,
) -> (found: Result<LoadFunc, anyhow::Error>)
    requires
        instance_store(*instance) == store_id(*old(store)),
    ensures
        same_store(*old(store), *final(store)),
        found matches Ok(func) ==> load_store(func) == store_id(*old(store)),
        deeds(*final(store)) == deeds(*old(store)).push(
            looked_up(*instance, load_name(), refusal(found)),
        ),
{
    instance.get_typed_func::<(String,), (Result<Vec<u8>, String>,)>(store, "load")
}

/// Looks up the function that `instance` exports under `name`, whatever its
/// type. There is none where the name is not exported or stands for
/// something other than a function.
///
/// Trusted: `component::Instance::get_func`, which panics where the store
/// does not own the instance.
#[verifier::external_body]
pub(crate) fn find_func(
    instance: &wasmtime::component::Instance,
    store: &mut wasmtime::Store<Host>,
    name: &str,
) -> (found: Option<wasmtime::component::Func>)
    requires
        instance_store(*instance) == store_id(*old(store)),
    ensures
        same_store(*old(store), *final(store)),
        deeds(*final(store)) == deeds(*old(store)).push(probed(*instance, name@, found is Some)),
{
    instance.get_func(store, name)
}

/// Runs a command's `eval` on `args` and returns when the guest has
/// returned; a guest that does not return keeps the caller waiting.
///
/// Trusted: `component::TypedFunc::call`, which panics on a store with
/// `async_support` and where the store does not own the function. An error
/// is returned where the guest traps and where what it hands over breaks
/// the calling convention.
#[verifier::external_body]
pub(crate) fn call_eval(func: &EvalFunc, store: &mut wasmtime::Store<Host>, args: Vec<String>) -> (
    returned: Result<String, anyhow::Error>)
    requires
        enterable(*old(store)),
        eval_store(*func) == store_id(*old(store)),
    ensures
        same_store(*old(store), *final(store)),
        deeds(*final(store)) == deeds(*old(store)).push(evaluated(texts(args@), returned)),
{
    func.call(store, (args,)).map(|(text,)| text)
}

/// Runs the loader's `load` on `name` and returns when the guest has
/// returned; a guest that does not return keeps the caller waiting.
///
/// Trusted: `component::TypedFunc::call`, as for `call_eval`.
#[verifier::external_body]
pub(crate) fn call_load(func: &LoadFunc, store: &mut wasmtime::Store<Host>, name: String) -> (
    returned: Result<Result<Vec<u8>, String>, anyhow::Error>)
    requires
        enterable(*old(store)),
        load_store(*func) == store_id(*old(store)),
    ensures
        same_store(*old(store), *final(store)),
        deeds(*final(store)) == deeds(*old(store)).push(asked(name@, returned)),
{
    func.call(store, (name,)).map(|(loaded,)| loaded)
}

/// Another handle to the compiled code of `component`.
///
/// Trusted: `Clone` of `component::Component`, which copies a reference to
/// the compiled code, not the code.
#[verifier::external_body]
pub(crate) fn share(component: &wasmtime::component::Component) -> (shared:
    wasmtime::component::Component)
    ensures
        shared == *component,
{
    component.clone()
}

/// The text that `error` displays as.
///
/// Trusted: `Display` of `anyhow::Error`, which prints the outermost
/// message of the error.
#[verifier::external_body]
pub(crate) fn error_text(error: &anyhow::Error) -> (text: String)
    ensures
        text@ == error_message(*error),
{
    error.to_string()
}

} // verus!
