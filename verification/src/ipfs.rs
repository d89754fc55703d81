//! The content-addressed store: a stand-in that stores nothing and always
//! answers with the same data.

use vstd::prelude::*;

verus! {

/// The key that every `put` returns.
pub open spec fn put_answer() -> Seq<char> {
    "doop doop doop, putting same data"@
}

/// The data that every `get` returns.
pub open spec fn get_answer() -> Seq<char> {
    "doop doop doop, getting same data"@
}

/// Stores `data` and returns its key: the same key whatever the data.
#[allow(unused_variables)]
pub fn put(data: String) -> (cid: String)
    ensures
        cid@ == put_answer(),
{
    "doop doop doop, putting same data".to_owned()
}

/// The data stored under `cid`: the same data whatever the key.
#[allow(unused_variables)]
pub fn get(cid: String) -> (data: Option<String>)
    ensures
        data matches Some(found) && found@ == get_answer(),
{
    Some("doop doop doop, getting same data".to_owned())
}

} // verus!
