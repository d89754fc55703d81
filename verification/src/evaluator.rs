//! The dispatcher: from a command name and its arguments to a textual
//! outcome, by way of the cache, the loader and the two sandboxes.

use crate::cache::Cache;
use crate::host::{lemma_command_is_narrower, loader_grant, narrower, Grant, Host};
use crate::input::texts;
use crate::laws::{lemma_hit, lemma_miss};
use crate::outcome::{invoked, loaded, Outcome};
use crate::protocol::{
    admits, cached_after, clipped, compiled, follows, hit, miss, outcome, total_compiles,
    total_loads, valid, Cause, Record, Step,
};
use crate::runtime::{
    compile, compile_refusal, compile_source, component_engine, component_source,
    engine_is_sync, engine_refusal, error_message, error_text, linking_refusal, new_engine,
    new_engine_reserving, share, Entry,
};
use crate::sandbox::{execution, resolution, Sandbox};
use vstd::prelude::*;

verus! {

/// The counter after one more event, given the count that it shows.
fn counted(counter: u64, count: Ghost<nat>) -> (next: u64)
    requires
        counter == clipped(count@),
    ensures
        next == clipped(count@ + 1),
{
    if counter < u64::MAX {
        counter + 1
    } else {
        counter
    }
}

/// The parts of a dispatcher, in the order in which they are set up.
#[derive(Debug, Clone, Copy, PartialEq, Eq, Structural)]
pub enum Part {
    /// The runtime with its configuration.
    Engine,
    /// The sandbox of the loader.
    LoaderContext,
    /// The loader module, which has to compile.
    LoaderModule,
    /// The sandbox of the commands.
    CommandContext,
}

/// Why the dispatcher could not be started: the part that could not be set
/// up and what the runtime said of it. Such a failure is fatal: there is no
/// dispatcher to go on with.
#[derive(Debug, PartialEq, Eq)]
pub struct StartupError {
    pub part: Part,
    pub message: String,
}

impl StartupError {
    /// The failure of `part` that `error` reports.
    pub fn of(part: Part, error: &anyhow::Error) -> (failure: StartupError)
        ensures
            failure.part == part,
            failure.message@ == error_message(*error),
    {
        StartupError { part, message: error_text(error) }
    }

    /// The text shown to the user.
    pub fn text(self) -> (text: String)
        ensures
            text@ == self.message@,
    {
        self.message
    }

    /// Whether the failure is one that the startup can end in, given the
    /// bytes that the loader module was to be compiled from: the failure of
    /// a part carries what the runtime said when it refused that part. For
    /// the loader module that is what it said of compiling these bytes.
    pub open spec fn refused(self, source: Seq<u8>) -> bool {
        match self.part {
            Part::Engine => engine_refusal(self.message@),
            Part::LoaderContext => linking_refusal(self.message@),
            Part::LoaderModule => compile_refusal(source, self.message@),
            Part::CommandContext => linking_refusal(self.message@),
        }
    }
}

/// What setting up a part comes to: the part itself where the runtime
/// made it, and else the failure of that part, with what the runtime said.
pub fn staged<T>(part: Part, made: Result<T, anyhow::Error>) -> (stage: Result<T, StartupError>)
    ensures
        made matches Ok(value) ==> stage matches Ok(kept) && kept == value,
        made matches Err(error) ==> stage matches Err(failure) && failure.part == part
            && failure.message@ == error_message(error),
{
    match made {
        Ok(value) => Ok(value),
        Err(error) => Err(StartupError::of(part, &error)),
    }
}

/// The dispatcher. It owns the runtime, the loader module with its sandbox,
/// the sandbox that commands run in, and the cache of compiled commands.
/// The cache lives as long as the dispatcher and never gives a module up:
/// it grows by one module for each name that is resolved.
pub struct Evaluator {
    engine: wasmtime::Engine,
    command: Sandbox,
    loader: Sandbox,
    loader_component: wasmtime::component::Component,
    cache: Cache<wasmtime::component::Component>,
    loads: u64,
    compiles: u64,
    journal: Ghost<Seq<Record>>,
}

impl Evaluator {
    /// The parts belong to one engine, the journal follows the protocol,
    /// the cache holds what the journal says was compiled, the counters
    /// show what the journal adds up to, the loader is granted its root to
    /// read, commands are granted no tree, and neither is let onto the
    /// network.
    pub closed spec fn wf(&self) -> bool {
        &&& engine_is_sync(self.engine)
        &&& self.command.wf()
        &&& self.command.engine() == self.engine
        &&& self.loader.wf()
        &&& self.loader.engine() == self.engine
        &&& self.loader.runs(self.loader_component)
        &&& self.cache.wf()
        &&& forall|name: Seq<char>| #[trigger]
            self.cache@.contains_key(name) ==> component_engine(self.cache@[name]) == self.engine
        &&& valid(self.journal@)
        &&& self.cache@.dom() == cached_after(self.journal@)
        &&& self.loads == clipped(total_loads(self.journal@))
        &&& self.compiles == clipped(total_compiles(self.journal@))
        &&& self.loader.grants() == seq![loader_grant(self.loader.grants()[0].tree)]
        &&& self.command.grants() == Seq::<Grant>::empty()
        &&& !self.loader.network()
        &&& !self.command.network()
    }

    /// Every dispatch so far, oldest first, with the steps it took. The
    /// journal is kept for the proofs alone: it takes no room when the
    /// program runs.
    pub closed spec fn journal(&self) -> Seq<Record> {
        self.journal@
    }

    /// The compiled commands by name.
    pub closed spec fn modules(&self) -> Map<Seq<char>, wasmtime::component::Component> {
        self.cache@
    }

    /// The names of the commands in the cache.
    pub open spec fn cached(&self) -> Set<Seq<char>> {
        self.modules().dom()
    }

    /// The loader module.
    pub closed spec fn loader_module(&self) -> wasmtime::component::Component {
        self.loader_component
    }

    /// The sandbox of the loader, in its present state. Whatever enters
    /// the sandbox changes the state.
    pub closed spec fn loader_sandbox(&self) -> Sandbox {
        self.loader
    }

    /// The sandbox of the commands, in its present state. Whatever enters
    /// the sandbox changes the state.
    pub closed spec fn command_sandbox(&self) -> Sandbox {
        self.command
    }

    /// The directory under which the loader may read.
    pub closed spec fn root(&self) -> wasi_common::sync::Dir {
        self.loader.grants()[0].tree
    }

    /// What the loader may reach.
    pub closed spec fn loader_grants(&self) -> Seq<Grant> {
        self.loader.grants()
    }

    /// Whether the loader's context admits any use of the network.
    pub closed spec fn loader_network(&self) -> bool {
        self.loader.network()
    }

    /// Whether the commands' context admits any use of the network.
    pub closed spec fn command_network(&self) -> bool {
        self.command.network()
    }

    /// What commands may reach.
    pub closed spec fn command_grants(&self) -> Seq<Grant> {
        self.command.grants()
    }

    /// Whether `after` is this dispatcher after one dispatch of `name` on
    /// `args`: the journal has one more record, for that name and those
    /// arguments, whose steps are what the protocol allows for the cache as
    /// it was; the name has entered the cache if the steps compiled a
    /// module, and nothing else about the cache has changed; the grants of
    /// the two contexts are what they were. A dispatch that finds its
    /// module in the cache does not enter the loader's sandbox, and one
    /// that does not come to invoke a module does not enter the commands'.
    /// What the steps record is what was done in the sandboxes: the loader
    /// module was asked for the name; the module that enters the cache is
    /// compiled from the bytes that the loader delivered; where they did
    /// not compile, the error is what the runtime said of compiling them;
    /// the module that was run on the arguments is the one cached under
    /// the name.
    pub open spec fn dispatched(
        &self,
        after: &Evaluator,
        name: Seq<char>,
        args: Seq<Seq<char>>,
    ) -> bool {
        let record = after.journal().last();
        &&& after.wf()
        &&& after.journal().len() > 0
        &&& after.journal().drop_last() == self.journal()
        &&& record.name == name
        &&& record.args == args
        &&& follows(self.cached().contains(name), name, args, record.steps)
        &&& after.cached() == if admits(record.steps) {
            self.cached().insert(name)
        } else {
            self.cached()
        }
        &&& forall|other: Seq<char>| #[trigger]
            self.modules().contains_key(other) ==> after.modules()[other] == self.modules()[other]
        &&& after.root() == self.root()
        &&& after.loader_grants() == self.loader_grants()
        &&& after.command_grants() == self.command_grants()
        &&& self.cached().contains(name) ==> after.loader_sandbox() == self.loader_sandbox()
        &&& !(record.steps.last() is Invoke) ==> after.command_sandbox()
            == self.command_sandbox()
        &&& after.loader_module() == self.loader_module()
        &&& !self.cached().contains(name) ==> resolution(
            self.loader_module(),
            name,
            self.loader_sandbox().since(&after.loader_sandbox()),
            record.steps[0]->answer,
        )
        &&& admits(record.steps) ==> component_source(after.modules()[name])
            == record.steps[1]->bytecode
        &&& record.steps.len() == 2 ==> (record.steps[1]->verdict matches Err(message)
            && compile_refusal(record.steps[1]->bytecode, message))
        &&& record.steps.last() is Invoke ==> execution(
            after.modules()[name],
            args,
            self.command_sandbox().since(&after.command_sandbox()),
            record.steps.last()->result,
        )
    }

    /// Whether `after` is this dispatcher with nothing done to it: the
    /// journal, the cache and the two sandboxes are exactly what they were.
    pub open spec fn untouched(&self, after: &Evaluator) -> bool {
        &&& after.wf()
        &&& after.journal() == self.journal()
        &&& after.modules() == self.modules()
        &&& after.loader_module() == self.loader_module()
        &&& after.loader_sandbox() == self.loader_sandbox()
        &&& after.command_sandbox() == self.command_sandbox()
        &&& after.root() == self.root()
        &&& after.loader_grants() == self.loader_grants()
        &&& after.command_grants() == self.command_grants()
    }

    /// What holds of every dispatcher: its journal follows the protocol,
    /// its cache holds the names that the journal says were compiled, the
    /// loader may read under its root and reach no other file, commands may
    /// reach no file at all, which is strictly less, and neither context
    /// admits any use of the network.
    pub proof fn lemma_wf(&self)
        requires
            self.wf(),
        ensures
            valid(self.journal()),
            self.cached() == cached_after(self.journal()),
            self.loader_grants() == seq![loader_grant(self.root())],
            self.command_grants() == Seq::<Grant>::empty(),
            narrower(self.command_grants(), self.loader_grants()),
            !self.loader_network(),
            !self.command_network(),
    {
        lemma_command_is_narrower(self.root());
    }

    /// Starts a dispatcher with an empty cache. The loader module is
    /// compiled from `loader_bytecode`, which holds what the file of the
    /// module holds, a component in its binary form or as text. It will
    /// run with read-only access to the files under `root`; commands will
    /// run without access to any file; neither will be let onto the
    /// network. The runtime has its default configuration, which sets aside
    /// gigabytes of address space for the memory of each guest.
    ///
    /// The parts are set up in order: the runtime, the loader's sandbox,
    /// the loader module, the commands' sandbox. The first that the runtime
    /// refuses ends the startup, and the failure names it and carries what
    /// the runtime said.
    pub fn new(root: wasi_common::sync::Dir, loader_bytecode: &Vec<u8>) -> (started: Result<
        Evaluator,
        StartupError,
    >)
        ensures
            started matches Ok(evaluator) ==> evaluator.fresh() && evaluator.root() == root
                && component_source(evaluator.loader_module()) == loader_bytecode@,
            started matches Err(failure) ==> failure.refused(loader_bytecode@),
    {
        match staged(Part::Engine, new_engine()) {
            Ok(engine) => Evaluator::assemble(engine, root, loader_bytecode),
            Err(failure) => Err(failure),
        }
    }

    /// Starts a dispatcher as [`Evaluator::new`] does, for a process that
    /// is short of address space: the memory of a guest claims `reserved`
    /// bytes of it where it can hold no more than that, else what it holds
    /// and `growth` bytes more.
    pub fn with_reservation(
        root: wasi_common::sync::Dir,
        loader_bytecode: &Vec<u8>,
        reserved: u64,
        growth: u64,
    ) -> (started: Result<Evaluator, StartupError>)
        ensures
            started matches Ok(evaluator) ==> evaluator.fresh() && evaluator.root() == root
                && component_source(evaluator.loader_module()) == loader_bytecode@,
            started matches Err(failure) ==> failure.refused(loader_bytecode@),
    {
        match staged(Part::Engine, new_engine_reserving(reserved, growth)) {
            Ok(engine) => Evaluator::assemble(engine, root, loader_bytecode),
            Err(failure) => Err(failure),
        }
    }

    /// A dispatcher that has not dispatched anything: its cache and its
    /// journal are empty, nothing has been done in its sandboxes, the
    /// loader may read under its root, commands may reach no file, and
    /// neither context admits any use of the network.
    pub open spec fn fresh(&self) -> bool {
        &&& self.wf()
        &&& self.journal() == Seq::<Record>::empty()
        &&& self.loader_sandbox().log() == Seq::<Entry>::empty()
        &&& self.command_sandbox().log() == Seq::<Entry>::empty()
        &&& self.modules() == Map::<Seq<char>, wasmtime::component::Component>::empty()
        &&& self.loader_grants() == seq![loader_grant(self.root())]
        &&& self.command_grants() == Seq::<Grant>::empty()
        &&& !self.loader_network()
        &&& !self.command_network()
    }

    /// Sets up the two sandboxes and the loader module on `engine`, the
    /// loader module compiled from `loader_bytecode`. The first part that
    /// cannot be set up gives the error.
    fn assemble(
        engine: wasmtime::Engine,
        root: wasi_common::sync::Dir,
        loader_bytecode: &Vec<u8>,
    ) -> (started: Result<Evaluator, StartupError>)
        requires
            engine_is_sync(engine),
        ensures
            started matches Ok(evaluator) ==> evaluator.fresh() && evaluator.root() == root
                && component_source(evaluator.loader_module()) == loader_bytecode@,
            started matches Err(failure) ==> failure.part != Part::Engine && failure.refused(
                loader_bytecode@,
            ),
    {
        let cache = Cache::new();
        let loader = match staged(Part::LoaderContext, Sandbox::new(&engine, Host::loader(root))) {
            Ok(sandbox) => sandbox,
            Err(failure) => {
                return Err(failure);
            },
        };
        let loader_component = match staged(
            Part::LoaderModule,
            compile_source(&engine, loader_bytecode),
        ) {
            Ok(component) => component,
            Err(failure) => {
                return Err(failure);
            },
        };
        let command = match staged(Part::CommandContext, Sandbox::new(&engine, Host::command())) {
            Ok(sandbox) => sandbox,
            Err(failure) => {
                return Err(failure);
            },
        };
        proof {
            assert(cached_after(Seq::<Record>::empty()) =~= cache@.dom());
        }
        Ok(
            Evaluator {
                engine,
                command,
                loader,
                loader_component,
                cache,
                loads: 0,
                compiles: 0,
                journal: Ghost(Seq::empty()),
            },
        )
    }

    /// Whether a module is cached under `name`.
    pub fn is_cached(&self, name: &String) -> (found: bool)
        requires
            self.wf(),
        ensures
            found == self.cached().contains(name@),
    {
        self.cache.contains(name)
    }

    /// How many times the loader has been asked since the dispatcher
    /// started. The counter stops at its greatest value.
    pub fn loader_calls(&self) -> (count: u64)
        requires
            self.wf(),
        ensures
            count == clipped(total_loads(self.journal())),
    {
        self.loads
    }

    /// How many times bytecode of a command has been compiled since the
    /// dispatcher started, with or without success. The counter stops at its
    /// greatest value.
    pub fn compilations(&self) -> (count: u64)
        requires
            self.wf(),
        ensures
            count == clipped(total_compiles(self.journal())),
    {
        self.compiles
    }

    /// Dispatches `name` on `args`.
    ///
    /// A cached module is used as it is, whatever has become of its source.
    /// Else the loader is asked for the bytecode, which is compiled; the
    /// module enters the cache as soon as it has compiled, before it is
    /// invoked, and stays there whatever the invocation does. A failure of
    /// the loader or of the compiler ends the dispatch and leaves the cache
    /// as it was, so that the next dispatch of the name asks the loader
    /// again.
    pub fn dispatch(&mut self, name: String, args: Vec<String>) -> (out: Outcome)
        requires
            old(self).wf(),
        ensures
            old(self).dispatched(final(self), name@, texts(args@)),
            out@ == outcome(final(self).journal().last().steps),
    {
        let ghost asked = name@;
        let ghost given = texts(args@);
        let ghost before = self.journal@;
        match self.cache.get(&name) {
            Some(component) => {
                let result = self.command.exec_component(args, component);
                let ghost steps = seq![Step::Invoke { args: given, result: invoked(result) }];
                self.journal = Ghost(
                    before.push(Record { name: asked, args: given, steps }),
                );
                proof {
                    assert(self.journal@.drop_last() =~= before);
                    assert(hit(given, steps));
                    lemma_hit(given, steps);
                }
                Outcome::of(result)
            },
            None => {
                let answer = self.loader.load(&self.loader_component, &name);
                self.loads = counted(self.loads, Ghost(total_loads(before)));
                let ghost load = Step::Load { name: asked, answer: loaded(answer) };
                match answer {
                    Err(message) => {
                        let ghost steps = seq![load];
                        self.journal = Ghost(
                            before.push(Record { name: asked, args: given, steps }),
                        );
                        proof {
                            assert(self.journal@.drop_last() =~= before);
                            assert(miss(asked, given, steps));
                            lemma_miss(asked, given, steps);
                        }
                        Outcome::Error(Cause::Resolution, message)
                    },
                    Ok(bytecode) => {
                        let made = compile(&self.engine, &bytecode);
                        self.compiles = counted(self.compiles, Ghost(total_compiles(before)));
                        match made {
                            Err(error) => {
                                let message = error_text(&error);
                                let ghost steps = seq![
                                    load,
                                    Step::Compile { bytecode: bytecode@, verdict: Err(message@) },
                                ];
                                self.journal = Ghost(
                                    before.push(Record { name: asked, args: given, steps }),
                                );
                                proof {
                                    assert(self.journal@.drop_last() =~= before);
                                    assert(miss(asked, given, steps));
                                    lemma_miss(asked, given, steps);
                                }
                                Outcome::Error(Cause::Compile, message)
                            },
                            Ok(component) => {
                                self.cache.insert(name, share(&component));
                                let result = self.command.exec_component(args, &component);
                                let ghost steps = seq![
                                    load,
                                    Step::Compile { bytecode: bytecode@, verdict: Ok(()) },
                                    Step::Invoke { args: given, result: invoked(result) },
                                ];
                                self.journal = Ghost(
                                    before.push(Record { name: asked, args: given, steps }),
                                );
                                proof {
                                    assert(self.journal@.drop_last() =~= before);
                                    assert(hit(given, steps.skip(2)));
                                    assert(miss(asked, given, steps));
                                    assert(compiled(steps[1]));
                                    lemma_miss(asked, given, steps);
                                    assert(self.cache@.dom() =~= old(self).cache@.dom().insert(
                                        asked,
                                    ));
                                }
                                Outcome::of(result)
                            },
                        }
                    },
                }
            },
        }
    }

    /// Dispatches `cmd` on `args` and returns the text to show, be it the
    /// command's result or the message of an error.
    pub fn eval(&mut self, cmd: String, args: Vec<String>) -> (text: String)
        requires
            old(self).wf(),
        ensures
            old(self).dispatched(final(self), cmd@, texts(args@)),
            text@ == outcome(final(self).journal().last().steps).text(),
    {
        self.dispatch(cmd, args).text()
    }
}

} // verus!
