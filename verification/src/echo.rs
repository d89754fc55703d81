//! The echo command: what a command module returns whose `eval`
//! concatenates its arguments.

use crate::input::texts;
use vstd::prelude::*;
use vstd::string::StringExecFns;

verus! {

/// The parts, one after the other, with nothing between them.
pub open spec fn joined(parts: Seq<Seq<char>>) -> Seq<char>
    decreases parts.len(),
{
    if parts.len() == 0 {
        Seq::empty()
    } else {
        joined(parts.drop_last()) + parts.last()
    }
}

/// Joining one more part appends it.
pub proof fn lemma_joined_push(parts: Seq<Seq<char>>, part: Seq<char>)
    ensures
        joined(parts.push(part)) == joined(parts) + part,
{
    assert(parts.push(part).drop_last() =~= parts);
}

/// Concatenates the arguments in order.
pub fn eval(expr: Vec<String>) -> (out: String)
    ensures
        out@ == joined(texts(expr@)),
{
    let mut out = String::new();
    let mut i: usize = 0;
    while i < expr.len()
        invariant
            i <= expr@.len(),
            out@ == joined(texts(expr@).take(i as int)),
        decreases expr@.len() - i,
    {
        out.append(expr[i].as_str());
        proof {
            let parts = texts(expr@);
            assert(parts.take(i + 1) =~= parts.take(i as int).push(parts[i as int]));
            lemma_joined_push(parts.take(i as int), parts[i as int]);
        }
        i += 1;
    }
    proof {
        assert(texts(expr@).take(expr@.len() as int) =~= texts(expr@));
    }
    out
}

} // verus!
