//! The resolution protocol: the steps that one dispatch may take, and what
//! follows from them for the cache and for the outcome.
//!
//! A dispatch starts with a cache lookup. On a hit the cached module is
//! invoked and nothing else happens. On a miss the loader is asked for the
//! bytecode; if it delivers, the bytecode is compiled; if that succeeds, the
//! module enters the cache and is invoked. The first failure ends the
//! dispatch. Whatever the invocation does, a module that entered the cache
//! stays there.

use vstd::prelude::*;

verus! {

/// Why a dispatch ended in an error.
#[derive(Debug, Clone, Copy, PartialEq, Eq, Structural)]
pub enum Cause {
    /// The loader produced no bytecode for the name: it reported an error of
    /// its own, or it could not be run.
    Resolution,
    /// The bytecode is malformed or not supported.
    Compile,
    /// The module could not be instantiated in its context, for want of an
    /// import that the context does not grant or because it trapped while
    /// it started.
    Instantiation,
    /// The module does not export the required function.
    MissingExport,
    /// The module exports the required function with another type.
    SignatureMismatch,
    /// The module trapped while the export ran, or handed back what breaks
    /// the calling convention.
    Invocation,
}

/// A failed invocation, as contracts speak of it.
pub struct FaultView {
    pub cause: Cause,
    pub message: Seq<char>,
}

/// How a dispatch ended, as contracts speak of it.
pub enum OutcomeView {
    /// The command ran and returned this text.
    Done(Seq<char>),
    /// The dispatch stopped for the given cause, with this message.
    Error(Cause, Seq<char>),
}

impl OutcomeView {
    /// The text shown to the user: a result and an error message look alike.
    pub open spec fn text(self) -> Seq<char> {
        match self {
            OutcomeView::Done(text) => text,
            OutcomeView::Error(_, message) => message,
        }
    }
}

/// One entry into the sandbox, with what went in and what came back.
pub enum Step {
    /// The loader was asked for the bytecode of `name`.
    Load { name: Seq<char>, answer: Result<Seq<u8>, Seq<char>> },
    /// `bytecode` was handed to the compiler.
    Compile { bytecode: Seq<u8>, verdict: Result<(), Seq<char>> },
    /// A command module was invoked on `args`.
    Invoke { args: Seq<Seq<char>>, result: Result<Seq<char>, FaultView> },
}

/// One dispatch: the command, its arguments and the steps taken for it.
pub struct Record {
    pub name: Seq<char>,
    pub args: Seq<Seq<char>>,
    pub steps: Seq<Step>,
}

impl Cause {
    /// Whether the cause is one of an invocation: the module was there, and
    /// failed to start, to offer its export or to run it.
    pub open spec fn of_invocation(self) -> bool {
        self != Cause::Resolution && self != Cause::Compile
    }
}

/// The steps of a dispatch that found its module in the cache: the
/// invocation on the arguments as given, and nothing else. Where the
/// invocation fails, the cause is one of an invocation.
pub open spec fn hit(args: Seq<Seq<char>>, steps: Seq<Step>) -> bool {
    &&& steps.len() == 1
    &&& steps[0] matches Step::Invoke { args: given, result }
    &&& given == args
    &&& result matches Err(fault) ==> fault.cause.of_invocation()
}

/// The steps of a dispatch that did not find its module in the cache: the
/// loader is asked for `name`; what it returns is compiled as it is; the
/// compiled module is invoked on the arguments as given. The first failure
/// is the last step.
pub open spec fn miss(name: Seq<char>, args: Seq<Seq<char>>, steps: Seq<Step>) -> bool {
    &&& steps.len() >= 1
    &&& steps[0] matches Step::Load { name: asked, answer: loaded }
    &&& asked == name
    &&& match loaded {
        Err(_) => steps.len() == 1,
        Ok(bytecode) => {
            &&& steps.len() >= 2
            &&& steps[1] matches Step::Compile { bytecode: given, verdict: compiled }
            &&& given == bytecode
            &&& match compiled {
                Err(_) => steps.len() == 2,
                Ok(_) => steps.len() == 3 && hit(args, steps.skip(2)),
            }
        },
    }
}

/// Whether `steps` is what the protocol allows for a dispatch of `name` on
/// `args`, given whether the name was cached when the dispatch began.
pub open spec fn follows(
    cached: bool,
    name: Seq<char>,
    args: Seq<Seq<char>>,
    steps: Seq<Step>,
) -> bool {
    if cached {
        hit(args, steps)
    } else {
        miss(name, args, steps)
    }
}

/// Whether the steps put a module into the cache: they hold a compilation
/// that succeeded.
pub open spec fn admits(steps: Seq<Step>) -> bool {
    exists|i: int| 0 <= i < steps.len() && #[trigger] compiled(steps[i])
}

/// A compilation that succeeded.
pub open spec fn compiled(step: Step) -> bool {
    step matches Step::Compile { verdict: Ok(_), .. }
}

/// How many times the steps asked the loader.
pub open spec fn loads(steps: Seq<Step>) -> nat
    decreases steps.len(),
{
    if steps.len() == 0 {
        0
    } else {
        loads(steps.drop_last()) + if steps.last() is Load {
            1nat
        } else {
            0nat
        }
    }
}

/// How many times the steps ran the compiler.
pub open spec fn compiles(steps: Seq<Step>) -> nat
    decreases steps.len(),
{
    if steps.len() == 0 {
        0
    } else {
        compiles(steps.drop_last()) + if steps.last() is Compile {
            1nat
        } else {
            0nat
        }
    }
}

/// How many times the dispatches of `history` asked the loader, all told.
pub open spec fn total_loads(history: Seq<Record>) -> nat
    decreases history.len(),
{
    if history.len() == 0 {
        0
    } else {
        total_loads(history.drop_last()) + loads(history.last().steps)
    }
}

/// How many times the dispatches of `history` ran the compiler, all told.
pub open spec fn total_compiles(history: Seq<Record>) -> nat
    decreases history.len(),
{
    if history.len() == 0 {
        0
    } else {
        total_compiles(history.drop_last()) + compiles(history.last().steps)
    }
}

/// A count as a counter of 64 bits shows it: the counter stops at its
/// greatest value.
pub open spec fn clipped(count: nat) -> u64 {
    if count <= u64::MAX {
        count as u64
    } else {
        u64::MAX
    }
}

/// The outcome of a dispatch: what its last step came to.
pub open spec fn outcome(steps: Seq<Step>) -> OutcomeView
    recommends
        steps.len() > 0,
{
    match steps.last() {
        Step::Load { answer: Err(message), .. } => OutcomeView::Error(Cause::Resolution, message),
        Step::Load { answer: Ok(_), .. } => OutcomeView::Error(Cause::Resolution, Seq::empty()),
        Step::Compile { verdict: Err(message), .. } => OutcomeView::Error(Cause::Compile, message),
        Step::Compile { verdict: Ok(_), .. } => OutcomeView::Error(Cause::Compile, Seq::empty()),
        Step::Invoke { result: Ok(text), .. } => OutcomeView::Done(text),
        Step::Invoke { result: Err(fault), .. } => OutcomeView::Error(fault.cause, fault.message),
    }
}

/// The names that are cached after the dispatches of `history`, starting
/// from an empty cache.
pub open spec fn cached_after(history: Seq<Record>) -> Set<Seq<char>>
    decreases history.len(),
{
    if history.len() == 0 {
        Set::empty()
    } else if admits(history.last().steps) {
        cached_after(history.drop_last()).insert(history.last().name)
    } else {
        cached_after(history.drop_last())
    }
}

/// Whether every dispatch of `history` followed the protocol, given the
/// cache that the dispatches before it left behind.
pub open spec fn valid(history: Seq<Record>) -> bool
    decreases history.len(),
{
    history.len() == 0 || {
        let last = history.last();
        &&& valid(history.drop_last())
        &&& follows(
            cached_after(history.drop_last()).contains(last.name),
            last.name,
            last.args,
            last.steps,
        )
    }
}

} // verus!
