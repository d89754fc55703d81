//! Sandboxes: running a guest inside a capability context.
//!
//! What was done in a sandbox is the history of its store: every guest that
//! was to be made, every export that was looked up and every call, each with
//! what was handed over and what came back. The bindings to the runtime say
//! what each of them adds to that history, and the contracts here are proved
//! from that: they say which calls a function makes, with which name or
//! arguments, and how its result follows from what came back.

use crate::host::{Grant, Host};
use crate::input::texts;
use crate::outcome::{answered, fault, invoked, loaded, returned, unusable, Fault};
use crate::protocol::{Cause, FaultView};
use crate::runtime::{
    add_wasi, call_eval, call_load, component_engine, deeds, engine_is_sync, enterable,
    error_message, error_text, eval_export, eval_name, find_func, instance_store, instantiate,
    linker_engine, linking_refusal, load_export, load_name, new_linker, new_store, store_engine,
    store_id, Entry,
};
use vstd::prelude::*;

verus! {

/// A sandbox: a store that owns the state of one capability context, and
/// the linker that satisfies the imports of the guests that run in it.
pub struct Sandbox {
    store: wasmtime::Store<Host>,
    linker: wasmtime::component::Linker<Host>,
    grants: Ghost<Seq<Grant>>,
    network: Ghost<bool>,
}

/// A guest: an instance of a module, alive in the sandbox that made it.
pub struct Guest {
    instance: wasmtime::component::Instance,
}

impl Guest {
    /// The identity of the sandbox that the guest lives in.
    pub closed spec fn home(&self) -> int {
        instance_store(self.instance)
    }

    /// The instance that the runtime knows the guest as.
    pub closed spec fn handle(&self) -> wasmtime::component::Instance {
        self.instance
    }
}

/// What an instantiation handed back, as the history holds it.
pub open spec fn started(made: Result<Guest, Fault>) -> Result<
    wasmtime::component::Instance,
    Seq<char>,
> {
    match made {
        Ok(guest) => Ok(guest.handle()),
        Err(fault) => Err(fault.message@),
    }
}

/// The entry of an instantiation.
pub open spec fn instantiation(
    component: wasmtime::component::Component,
    made: Result<wasmtime::component::Instance, Seq<char>>,
) -> Entry {
    Entry::Instantiate { component, made }
}

/// The fault of a guest whose export cannot be had with the required type.
pub open spec fn unusable_as(message: Seq<char>, exported: bool) -> FaultView {
    FaultView {
        cause: if exported {
            Cause::SignatureMismatch
        } else {
            Cause::MissingExport
        },
        message,
    }
}

/// What a call of a command comes to: the text that the command returned,
/// or a fault of the invocation with what the runtime said.
pub open spec fn settled(returned: Result<Seq<char>, Seq<char>>) -> Result<Seq<char>, FaultView> {
    match returned {
        Ok(text) => Ok(text),
        Err(message) => Err(FaultView { cause: Cause::Invocation, message }),
    }
}

/// What a call of a loader comes to: the bytecode that the loader
/// delivered, else the loader's own message where it reported an error,
/// else what the runtime said of the call.
pub open spec fn resolved(delivered: Result<Result<Seq<u8>, Seq<char>>, Seq<char>>) -> Result<
    Seq<u8>,
    Seq<char>,
> {
    match delivered {
        Ok(answer) => answer,
        Err(message) => Err(message),
    }
}

/// Whether `entries` is what an invocation of the guest `instance` on
/// `args` does, and `result` what it comes to. The export `eval` is looked
/// up with its type. Where it is there, it is called on the arguments as
/// they are, and what comes back is the result. Where it is not, the guest
/// is asked whether it exports a function of that name at all, and the
/// result is the fault that says so, with what the runtime said of the
/// lookup.
pub open spec fn invocation(
    instance: wasmtime::component::Instance,
    args: Seq<Seq<char>>,
    entries: Seq<Entry>,
    result: Result<Seq<char>, FaultView>,
) -> bool {
    &&& entries.len() == 2
    &&& entries[0] is Lookup
    &&& entries[0]->Lookup_instance == instance
    &&& entries[0]->Lookup_export == eval_name()
    &&& match entries[0]->failure {
        None => {
            &&& entries[1] is Eval
            &&& entries[1]->args == args
            &&& result == settled(entries[1]->returned)
        },
        Some(message) => {
            &&& entries[1] is Probe
            &&& entries[1]->Probe_instance == instance
            &&& entries[1]->Probe_export == eval_name()
            &&& result == Err::<Seq<char>, FaultView>(unusable_as(message, entries[1]->found))
        },
    }
}

/// Whether `entries` is what running `component` on `args` does, and
/// `result` what it comes to. A guest is made of the component. Where that
/// fails, the result is the fault of the instantiation, with what the
/// runtime said of it. Else the new guest is invoked on the arguments.
pub open spec fn execution(
    component: wasmtime::component::Component,
    args: Seq<Seq<char>>,
    entries: Seq<Entry>,
    result: Result<Seq<char>, FaultView>,
) -> bool {
    &&& entries.len() >= 1
    &&& entries[0] is Instantiate
    &&& entries[0]->component == component
    &&& match entries[0]->made {
        Err(message) => {
            &&& entries.len() == 1
            &&& result == Err::<Seq<char>, FaultView>(
                FaultView { cause: Cause::Instantiation, message },
            )
        },
        Ok(instance) => invocation(instance, args, entries.skip(1), result),
    }
}

/// Whether `entries` is what asking the loader module `loader` for `name`
/// does, and `answer` what it comes to. A guest is made of the loader, its
/// export `load` is looked up with its type, and the export is called on
/// the name as it is. The answer is what the call came to, or what the
/// runtime said of the first step that failed.
pub open spec fn resolution(
    loader: wasmtime::component::Component,
    name: Seq<char>,
    entries: Seq<Entry>,
    answer: Result<Seq<u8>, Seq<char>>,
) -> bool {
    &&& entries.len() >= 1
    &&& entries[0] is Instantiate
    &&& entries[0]->component == loader
    &&& match entries[0]->made {
        Err(message) => entries.len() == 1 && answer == Err::<Seq<u8>, Seq<char>>(message),
        Ok(instance) => {
            &&& entries.len() >= 2
            &&& entries[1] is Lookup
            &&& entries[1]->Lookup_instance == instance
            &&& entries[1]->Lookup_export == load_name()
            &&& match entries[1]->failure {
                Some(message) => entries.len() == 2 && answer == Err::<Seq<u8>, Seq<char>>(
                    message,
                ),
                None => {
                    &&& entries.len() == 3
                    &&& entries[2] is Load
                    &&& entries[2]->name == name
                    &&& answer == resolved(entries[2]->delivered)
                },
            }
        },
    }
}

impl Sandbox {
    /// The store is entered synchronously and the linker belongs to the
    /// store's engine.
    pub closed spec fn wf(&self) -> bool {
        &&& enterable(self.store)
        &&& linker_engine(self.linker) == store_engine(self.store)
    }

    /// The engine that the sandbox belongs to.
    pub closed spec fn engine(&self) -> wasmtime::Engine {
        store_engine(self.store)
    }

    /// The identity of the sandbox.
    pub closed spec fn id(&self) -> int {
        store_id(self.store)
    }

    /// The grants of the context that the sandbox was made with.
    pub closed spec fn grants(&self) -> Seq<Grant> {
        self.grants@
    }

    /// Whether the context that the sandbox was made with admits any use
    /// of the network.
    pub closed spec fn network(&self) -> bool {
        self.network@
    }

    /// Everything that was done in the sandbox since it was made, oldest
    /// first: the history of its store.
    pub closed spec fn log(&self) -> Seq<Entry> {
        deeds(self.store)
    }

    /// Whether `after` is a later state of the sandbox `self`: guests come
    /// and go and the log grows at its end; the engine, the identity, the
    /// grants and the bar on the network stay.
    pub open spec fn persists(&self, after: &Sandbox) -> bool {
        &&& after.wf()
        &&& after.engine() == self.engine()
        &&& after.id() == self.id()
        &&& after.grants() == self.grants()
        &&& after.network() == self.network()
        &&& self.log().is_prefix_of(after.log())
    }

    /// What was done in the sandbox between its state `self` and its later
    /// state `after`.
    pub open spec fn since(&self, after: &Sandbox) -> Seq<Entry> {
        after.log().skip(self.log().len() as int)
    }

    /// Whether `component` was compiled for the engine of this sandbox.
    pub open spec fn runs(&self, component: wasmtime::component::Component) -> bool {
        component_engine(component) == self.engine()
    }

    /// A sandbox for `engine` whose guests run in the context `host` and
    /// find the WASI interfaces linked. Nothing has been done in it yet.
    /// The only failure is that of the linking.
    pub(crate) fn new(engine: &wasmtime::Engine, host: Host) -> (made: Result<
        Sandbox,
        anyhow::Error,
    >)
        requires
            engine_is_sync(*engine),
        ensures
            made matches Ok(sandbox) ==> sandbox.wf() && sandbox.engine() == *engine
                && sandbox.grants() == host.grants() && sandbox.network() == host.network()
                && sandbox.log() == Seq::<Entry>::empty(),
            made matches Err(error) ==> linking_refusal(error_message(error)),
    {
        let grants = Ghost(host.grants());
        let network = Ghost(host.network());
        let store = new_store(engine, host);
        let mut linker = new_linker(engine);
        match add_wasi(&mut linker) {
            Ok(()) => Ok(Sandbox { store, linker, grants, network }),
            Err(error) => Err(error),
        }
    }

    /// Instantiates `component` in this sandbox. The guest is new: it
    /// shares nothing with the guests made of the component before.
    pub fn instantiate(&mut self, component: &wasmtime::component::Component) -> (made: Result<
        Guest,
        Fault,
    >)
        requires
            old(self).wf(),
            old(self).runs(*component),
        ensures
            old(self).persists(final(self)),
            final(self).log() == old(self).log().push(instantiation(*component, started(made))),
            made matches Ok(guest) ==> guest.home() == old(self).id(),
            made matches Err(fault) ==> fault.cause == Cause::Instantiation,
    {
        match instantiate(&self.linker, &mut self.store, component) {
            Ok(instance) => Ok(Guest { instance }),
            Err(error) => Err(fault(Cause::Instantiation, &error)),
        }
    }

    /// Calls the export `eval` of `guest` on `args`. Where the export cannot
    /// be had as a function from a list of strings to a string, the fault
    /// says whether the guest exports a function of that name at all.
    pub fn invoke(&mut self, guest: &Guest, args: Vec<String>) -> (result: Result<String, Fault>)
        requires
            old(self).wf(),
            guest.home() == old(self).id(),
        ensures
            old(self).persists(final(self)),
            invocation(guest.handle(), texts(args@), old(self).since(final(self)), invoked(result)),
            result matches Err(fault) ==> fault.cause == Cause::MissingExport || fault.cause
                == Cause::SignatureMismatch || fault.cause == Cause::Invocation,
    {
        let ghost before = self.log();
        match eval_export(&guest.instance, &mut self.store) {
            Ok(func) => {
                let result = returned(call_eval(&func, &mut self.store, args));
                proof {
                    let entries = self.log().skip(before.len() as int);
                    assert(entries.len() == 2);
                    assert(entries[0] == self.log()[before.len() as int]);
                    assert(entries[1] == self.log()[before.len() as int + 1]);
                }
                result
            },
            Err(error) => {
                let exported = find_func(&guest.instance, &mut self.store, "eval").is_some();
                proof {
                    reveal_strlit("eval");
                    assert("eval"@ =~= eval_name());
                    let entries = self.log().skip(before.len() as int);
                    assert(entries.len() == 2);
                    assert(entries[0] == self.log()[before.len() as int]);
                    assert(entries[1] == self.log()[before.len() as int + 1]);
                }
                Err(unusable(&error, exported))
            },
        }
    }

    /// Runs `component` on `args`: instantiates it in this sandbox and
    /// calls the export `eval` of the new guest. The first stage that fails
    /// gives the fault.
    pub fn exec_component(
        &mut self,
        args: Vec<String>,
        component: &wasmtime::component::Component,
    ) -> (result: Result<String, Fault>)
        requires
            old(self).wf(),
            old(self).runs(*component),
        ensures
            old(self).persists(final(self)),
            execution(*component, texts(args@), old(self).since(final(self)), invoked(result)),
            result matches Err(fault) ==> fault.cause.of_invocation(),
    {
        let ghost before = self.log();
        match self.instantiate(component) {
            Ok(guest) => {
                let ghost between = self.log();
                let result = self.invoke(&guest, args);
                proof {
                    let entries = self.log().skip(before.len() as int);
                    assert(entries[0] == between[before.len() as int]);
                    assert(entries.skip(1) =~= self.log().skip(between.len() as int));
                }
                result
            },
            Err(fault) => {
                proof {
                    assert(self.log().skip(before.len() as int) =~= seq![
                        instantiation(*component, Err(fault.message@)),
                    ]);
                }
                Err(fault)
            },
        }
    }

    /// Asks the loader module `loader` for the bytecode of `name`:
    /// instantiates it in this sandbox, looks up its export `load` and
    /// calls it on the name. The error is the loader's own message where it
    /// reported one, else what the runtime said of the stage that failed.
    pub fn load(&mut self, loader: &wasmtime::component::Component, name: &String) -> (result:
        Result<Vec<u8>, String>)
        requires
            old(self).wf(),
            old(self).runs(*loader),
        ensures
            old(self).persists(final(self)),
            resolution(*loader, name@, old(self).since(final(self)), loaded(result)),
    {
        let ghost before = self.log();
        match self.instantiate(loader) {
            Err(fault) => {
                proof {
                    assert(self.log().skip(before.len() as int) =~= seq![
                        instantiation(*loader, Err(fault.message@)),
                    ]);
                }
                Err(fault.message)
            },
            Ok(guest) => {
                let ghost first = self.log()[before.len() as int];
                match load_export(&guest.instance, &mut self.store) {
                    Err(error) => {
                        proof {
                            let entries = self.log().skip(before.len() as int);
                            assert(entries.len() == 2);
                            assert(entries[0] == first);
                            assert(entries[1] == self.log()[before.len() as int + 1]);
                        }
                        Err(error_text(&error))
                    },
                    Ok(func) => {
                        let result = answered(call_load(&func, &mut self.store, name.clone()));
                        proof {
                            let entries = self.log().skip(before.len() as int);
                            assert(entries.len() == 3);
                            assert(entries[0] == first);
                            assert(entries[1] == self.log()[before.len() as int + 1]);
                            assert(entries[2] == self.log()[before.len() as int + 2]);
                        }
                        result
                    },
                }
            },
        }
    }
}

} // verus!
