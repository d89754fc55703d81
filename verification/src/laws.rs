//! What the protocol guarantees over any number of dispatches.
//!
//! The laws are stated of a history: the dispatches made since the cache
//! was empty, each with the steps it took. The journal of a well-formed
//! dispatcher is such a history. The laws at the end are stated of one
//! dispatcher before and after a dispatch.

use crate::echo::joined;
use crate::evaluator::Evaluator;
use crate::host::{narrower, Grant};
use crate::protocol::{
    admits, cached_after, compiled, compiles, follows, hit, loads, miss, outcome, valid, Cause,
    FaultView, OutcomeView, Record, Step,
};
use vstd::prelude::*;

verus! {

/// A dispatch that finds its module in the cache asks the loader nothing,
/// compiles nothing and puts nothing into the cache.
pub proof fn lemma_hit(args: Seq<Seq<char>>, steps: Seq<Step>)
    requires
        hit(args, steps),
    ensures
        loads(steps) == 0,
        compiles(steps) == 0,
        !admits(steps),
        steps.last() is Invoke,
{
    assert(steps.drop_last().len() == 0);
    assert(loads(steps.drop_last()) == 0);
    assert(compiles(steps.drop_last()) == 0);
}

/// A dispatch that does not find its module in the cache asks the loader
/// exactly once, and runs the compiler once if the loader delivered and not
/// at all if it did not. It puts the module into the cache if and only if
/// it compiled one, which is if and only if it came to invoke it.
pub proof fn lemma_miss(name: Seq<char>, args: Seq<Seq<char>>, steps: Seq<Step>)
    requires
        miss(name, args, steps),
    ensures
        loads(steps) == 1,
        steps.len() == 1 ==> compiles(steps) == 0,
        steps.len() > 1 ==> compiles(steps) == 1,
        admits(steps) <==> steps.last() is Invoke,
        admits(steps) <==> steps.len() == 3,
{
    let one = steps.take(1);
    assert(one.drop_last().len() == 0);
    assert(one.last() == steps[0]);
    assert(loads(one) == 1 && compiles(one) == 0) by {
        assert(loads(one.drop_last()) == 0);
        assert(compiles(one.drop_last()) == 0);
    }
    if steps.len() == 1 {
        assert(one =~= steps);
        assert(!admits(steps)) by {
            if admits(steps) {
                let i = choose|i: int| 0 <= i < steps.len() && #[trigger] compiled(steps[i]);
                assert(i == 0);
            }
        }
    } else {
        let two = steps.take(2);
        assert(two.drop_last() =~= one);
        assert(two.last() == steps[1]);
        assert(loads(two) == 1 && compiles(two) == 1);
        if steps.len() == 2 {
            assert(two =~= steps);
            assert(!admits(steps)) by {
                if admits(steps) {
                    let i = choose|i: int| 0 <= i < steps.len() && #[trigger] compiled(steps[i]);
                    assert(i == 0 || i == 1);
                }
            }
        } else {
            assert(steps.drop_last() =~= two);
            assert(steps.skip(2)[0] == steps[2]);
            assert(steps.last() is Invoke);
            assert(compiled(steps[1]));
        }
    }
}

/// The outcome tells how far a dispatch came, and with that what it did to
/// the cache: an error of resolution means that the loader was asked and
/// delivered nothing, an error of compilation that what it delivered did
/// not compile, and neither touches the cache; every other outcome, a
/// result as well as a fault of the invocation, means that the module was
/// invoked, and then it is in the cache, found there or just compiled.
pub proof fn law_outcome_tells_the_cache(
    cached: bool,
    name: Seq<char>,
    args: Seq<Seq<char>>,
    steps: Seq<Step>,
)
    requires
        follows(cached, name, args, steps),
    ensures
        outcome(steps) matches OutcomeView::Error(cause, _) && cause == Cause::Resolution ==> !cached
            && steps.len() == 1 && !admits(steps),
        outcome(steps) matches OutcomeView::Error(cause, _) && cause == Cause::Compile ==> !cached
            && steps.len() == 2 && !admits(steps),
        !(outcome(steps) matches OutcomeView::Error(cause, _) && !cause.of_invocation())
            ==> steps.last() is Invoke && (cached || admits(steps)),
{
    if cached {
        lemma_hit(args, steps);
    } else {
        lemma_miss(name, args, steps);
        if steps.len() == 3 {
            assert(steps.skip(2)[0] == steps[2]);
        }
    }
}

/// Contract fidelity: a module is invoked on the arguments of the dispatch
/// as they are, and what it returns is the outcome as it is. So where the
/// module concatenates its arguments, the dispatch returns the arguments of
/// the dispatch concatenated.
pub proof fn law_contract_fidelity(
    cached: bool,
    name: Seq<char>,
    args: Seq<Seq<char>>,
    steps: Seq<Step>,
)
    requires
        follows(cached, name, args, steps),
        steps.last() is Invoke,
    ensures
        steps.last()->args == args,
        steps.last()->result matches Ok(text) ==> outcome(steps) == OutcomeView::Done(text),
        steps.last()->result == Ok::<Seq<char>, FaultView>(joined(args)) ==> outcome(steps).text()
            == joined(args),
{
    if cached {
        lemma_hit(args, steps);
    } else {
        lemma_miss(name, args, steps);
        assert(steps.skip(2)[0] == steps[2]);
    }
}

/// The dispatches of a history before its `n`-th are a history too.
pub proof fn lemma_prefix_is_valid(history: Seq<Record>, n: int)
    requires
        valid(history),
        0 <= n <= history.len(),
    ensures
        valid(history.take(n)),
    decreases history.len() - n,
{
    if n == history.len() {
        assert(history.take(n) =~= history);
    } else {
        lemma_prefix_is_valid(history.drop_last(), n);
        assert(history.drop_last().take(n) =~= history.take(n));
    }
}

/// Every dispatch of a history followed the protocol for the cache that it
/// found.
pub proof fn lemma_each_follows(history: Seq<Record>, i: int)
    requires
        valid(history),
        0 <= i < history.len(),
    ensures
        follows(
            cached_after(history.take(i)).contains(history[i].name),
            history[i].name,
            history[i].args,
            history[i].steps,
        ),
{
    lemma_prefix_is_valid(history, i + 1);
    let upto = history.take(i + 1);
    assert(upto.drop_last() =~= history.take(i));
    assert(upto.last() == history[i]);
}

/// The cache is append-only: a name that is cached after `n` dispatches is
/// cached after any greater number of them.
pub proof fn law_cache_only_grows(history: Seq<Record>, n: int, m: int)
    requires
        0 <= n <= m <= history.len(),
    ensures
        cached_after(history.take(n)).subset_of(cached_after(history.take(m))),
    decreases m - n,
{
    if n < m {
        law_cache_only_grows(history, n, m - 1);
        assert(history.take(m).drop_last() =~= history.take(m - 1));
    }
}

/// A dispatch that compiled its module leaves the name cached, whatever
/// else it did.
pub proof fn lemma_admitted_is_cached(history: Seq<Record>, i: int)
    requires
        0 <= i < history.len(),
        admits(history[i].steps),
    ensures
        cached_after(history.take(i + 1)).contains(history[i].name),
{
    let upto = history.take(i + 1);
    assert(upto.last() == history[i]);
}

/// A cache hit is silent: once a dispatch of a name has compiled its
/// module, no later dispatch of that name, with whatever arguments, asks the
/// loader or compiles anything.
pub proof fn law_cache_hit_is_loader_silent(history: Seq<Record>, i: int, j: int)
    requires
        valid(history),
        0 <= i < j < history.len(),
        admits(history[i].steps),
        history[j].name == history[i].name,
    ensures
        loads(history[j].steps) == 0,
        compiles(history[j].steps) == 0,
        hit(history[j].args, history[j].steps),
{
    lemma_admitted_is_cached(history, i);
    law_cache_only_grows(history, i + 1, j);
    lemma_each_follows(history, j);
    lemma_hit(history[j].args, history[j].steps);
}

/// First a miss, then a hit: a dispatch of a name that is not cached asks
/// the loader exactly once; where it compiles the module, it compiles once,
/// and the dispatch of the same name that comes next asks the loader
/// nothing and compiles nothing.
pub proof fn law_first_miss_then_hit(history: Seq<Record>, i: int)
    requires
        valid(history),
        0 <= i,
        i + 1 < history.len(),
        !cached_after(history.take(i)).contains(history[i].name),
        admits(history[i].steps),
        history[i + 1].name == history[i].name,
    ensures
        loads(history[i].steps) == 1,
        compiles(history[i].steps) == 1,
        loads(history[i + 1].steps) == 0,
        compiles(history[i + 1].steps) == 0,
{
    lemma_each_follows(history, i);
    lemma_miss(history[i].name, history[i].args, history[i].steps);
    law_cache_hit_is_loader_silent(history, i, i + 1);
}

/// A failed resolution is not cached: where the loader reports an error,
/// the dispatch ends with exactly that message, the cache stays as it was,
/// and the next dispatch of the same name asks the loader again.
pub proof fn law_failed_resolution_is_not_cached(history: Seq<Record>, i: int, message: Seq<char>)
    requires
        valid(history),
        0 <= i < history.len(),
        history[i].steps.len() > 0,
        history[i].steps[0] is Load,
        history[i].steps[0]->answer == Err::<Seq<u8>, Seq<char>>(message),
    ensures
        outcome(history[i].steps) == OutcomeView::Error(Cause::Resolution, message),
        outcome(history[i].steps).text() == message,
        cached_after(history.take(i + 1)) == cached_after(history.take(i)),
        i + 1 < history.len() && history[i + 1].name == history[i].name ==> loads(
            history[i + 1].steps,
        ) == 1,
{
    lemma_each_follows(history, i);
    let steps = history[i].steps;
    assert(miss(history[i].name, history[i].args, steps));
    assert(steps.len() == 1);
    lemma_miss(history[i].name, history[i].args, steps);
    let upto = history.take(i + 1);
    assert(upto.last() == history[i]);
    assert(upto.drop_last() =~= history.take(i));
    if i + 1 < history.len() && history[i + 1].name == history[i].name {
        lemma_each_follows(history, i + 1);
        lemma_miss(history[i + 1].name, history[i + 1].args, history[i + 1].steps);
    }
}

/// A failed compilation is not cached either: the dispatch ends with the
/// compiler's message and the cache stays as it was.
pub proof fn law_failed_compilation_is_not_cached(history: Seq<Record>, i: int, message: Seq<char>)
    requires
        valid(history),
        0 <= i < history.len(),
        history[i].steps.len() > 1,
        history[i].steps[1] is Compile,
        history[i].steps[1]->verdict == Err::<(), Seq<char>>(message),
    ensures
        outcome(history[i].steps) == OutcomeView::Error(Cause::Compile, message),
        cached_after(history.take(i + 1)) == cached_after(history.take(i)),
{
    lemma_each_follows(history, i);
    let steps = history[i].steps;
    assert(miss(history[i].name, history[i].args, steps));
    assert(steps.len() == 2);
    lemma_miss(history[i].name, history[i].args, steps);
    let upto = history.take(i + 1);
    assert(upto.last() == history[i]);
    assert(upto.drop_last() =~= history.take(i));
}

/// An invocation fault preserves the cache: a dispatch that came to invoke
/// its module leaves the module cached whatever the invocation did, be it
/// a trap or a denied capability, and the dispatches of that name that
/// follow do not ask the loader.
pub proof fn law_invocation_preserves_cache(history: Seq<Record>, i: int, j: int)
    requires
        valid(history),
        0 <= i < j <= history.len(),
        history[i].steps.len() > 0,
        history[i].steps.last() is Invoke,
    ensures
        cached_after(history.take(i)).subset_of(cached_after(history.take(i + 1))),
        cached_after(history.take(i + 1)).contains(history[i].name),
        cached_after(history.take(j)).contains(history[i].name),
        j < history.len() && history[j].name == history[i].name ==> loads(history[j].steps) == 0,
{
    lemma_each_follows(history, i);
    law_cache_only_grows(history, i, i + 1);
    law_cache_only_grows(history, i + 1, j);
    let upto = history.take(i + 1);
    assert(upto.last() == history[i]);
    assert(upto.drop_last() =~= history.take(i));
    if cached_after(history.take(i)).contains(history[i].name) {
    } else {
        lemma_miss(history[i].name, history[i].args, history[i].steps);
    }
    if j < history.len() && history[j].name == history[i].name {
        lemma_each_follows(history, j);
        lemma_hit(history[j].args, history[j].steps);
    }
}

/// At the dispatcher, a cache hit is silent: a dispatch of a cached name
/// leaves the loader's sandbox exactly as it was, asks the loader nothing,
/// compiles nothing and leaves the cache as it was.
pub proof fn law_hit_leaves_the_loader_alone(
    before: &Evaluator,
    after: &Evaluator,
    name: Seq<char>,
    args: Seq<Seq<char>>,
)
    requires
        before.wf(),
        before.cached().contains(name),
        before.dispatched(after, name, args),
    ensures
        after.loader_sandbox() == before.loader_sandbox(),
        loads(after.journal().last().steps) == 0,
        compiles(after.journal().last().steps) == 0,
        after.modules() == before.modules(),
{
    let steps = after.journal().last().steps;
    lemma_hit(args, steps);
    assert(after.cached() =~= before.cached());
    assert(after.modules() =~= before.modules());
}

/// At the dispatcher, a miss asks the loader once: a dispatch of a name
/// that is not cached asks the loader exactly once and compiles at most
/// once. The name is cached afterwards if and only if the dispatch came to
/// invoke the module, whatever the invocation did; else the cache and the
/// commands' sandbox are exactly as they were.
pub proof fn law_miss_asks_the_loader_once(
    before: &Evaluator,
    after: &Evaluator,
    name: Seq<char>,
    args: Seq<Seq<char>>,
)
    requires
        before.wf(),
        !before.cached().contains(name),
        before.dispatched(after, name, args),
    ensures
        loads(after.journal().last().steps) == 1,
        compiles(after.journal().last().steps) <= 1,
        after.cached().contains(name) <==> after.journal().last().steps.last() is Invoke,
        after.cached().contains(name) <==> !(outcome(
            after.journal().last().steps,
        ) matches OutcomeView::Error(cause, _) && !cause.of_invocation()),
        !after.cached().contains(name) ==> after.modules() == before.modules()
            && after.command_sandbox() == before.command_sandbox(),
{
    let steps = after.journal().last().steps;
    lemma_miss(name, args, steps);
    law_outcome_tells_the_cache(false, name, args, steps);
    if !after.cached().contains(name) {
        assert(after.cached() =~= before.cached());
        assert(after.modules() =~= before.modules());
    }
}

/// Capability isolation: whatever was dispatched before, commands run in
/// a context that opens no directory to them, which is strictly less than
/// the loader is granted, and that admits no use of the network. A command that fails for want of a capability
/// stays cached, as does one that fails for any other reason or not at all,
/// and every module that was cached is still the module it was.
pub proof fn law_capability_isolation(
    before: &Evaluator,
    after: &Evaluator,
    name: Seq<char>,
    args: Seq<Seq<char>>,
)
    requires
        before.wf(),
        before.dispatched(after, name, args),
        after.journal().last().steps.last() is Invoke,
    ensures
        before.command_grants() == Seq::<Grant>::empty(),
        after.command_grants() == Seq::<Grant>::empty(),
        narrower(after.command_grants(), after.loader_grants()),
        !before.command_network(),
        !after.command_network(),
        after.cached().contains(name),
        forall|other: Seq<char>| #[trigger]
            before.modules().contains_key(other) ==> after.modules().contains_key(other)
                && after.modules()[other] == before.modules()[other],
{
    before.lemma_wf();
    after.lemma_wf();
    let steps = after.journal().last().steps;
    if before.cached().contains(name) {
        lemma_hit(args, steps);
    } else {
        lemma_miss(name, args, steps);
    }
    assert forall|other: Seq<char>| #[trigger]
        before.modules().contains_key(other) implies after.modules().contains_key(other) by {
        assert(before.cached().contains(other));
        assert(after.cached().contains(other));
    }
}

} // verus!
