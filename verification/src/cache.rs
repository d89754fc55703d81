//! The module cache: command name to compiled module.
//!
//! The cache only grows. Nothing is evicted and nothing expires: a module
//! that entered the cache serves every later dispatch of its name until the
//! process ends, and the cache holds as many modules as distinct names were
//! resolved.

use crate::input::texts;
use vstd::prelude::*;

verus! {

/// A mapping from command name to module, kept in insertion order.
pub struct Cache<M> {
    names: Vec<String>,
    modules: Vec<M>,
}

impl<M> View for Cache<M> {
    type V = Map<Seq<char>, M>;

    closed spec fn view(&self) -> Map<Seq<char>, M> {
        Map::new(
            |name: Seq<char>| texts(self.names@).contains(name),
            |name: Seq<char>| self.modules@[texts(self.names@).index_of(name)],
        )
    }
}

impl<M> Cache<M> {
    /// Every name has its module and no name occurs twice.
    pub closed spec fn wf(&self) -> bool {
        &&& self.names@.len() == self.modules@.len()
        &&& texts(self.names@).no_duplicates()
    }

    /// The names in the order in which they entered the cache.
    pub closed spec fn order(&self) -> Seq<Seq<char>> {
        texts(self.names@)
    }

    /// The names in the cache are those of its mapping, each once.
    pub proof fn lemma_order(&self)
        requires
            self.wf(),
        ensures
            self.order().no_duplicates(),
            forall|name: Seq<char>| self.order().contains(name) <==> self@.contains_key(name),
    {
    }

    /// An empty cache.
    pub fn new() -> (cache: Self)
        ensures
            cache.wf(),
            cache@ == Map::<Seq<char>, M>::empty(),
            cache.order() == Seq::<Seq<char>>::empty(),
    {
        let cache = Cache { names: Vec::new(), modules: Vec::new() };
        proof {
            assert(texts(cache.names@) =~= Seq::empty());
            assert(cache@ =~= Map::empty());
        }
        cache
    }

    /// Where `name` sits in the cache, if it is there.
    fn position(&self, name: &String) -> (at: Option<usize>)
        requires
            self.wf(),
        ensures
            at matches Some(i) ==> i < self.names@.len() && self.names@[i as int]@ == name@,
            at is None ==> !texts(self.names@).contains(name@),
    {
        let mut i: usize = 0;
        while i < self.names.len()
            invariant
                i <= self.names@.len(),
                forall|j: int| 0 <= j < i ==> texts(self.names@)[j] != name@,
            decreases self.names@.len() - i,
        {
            if self.names[i] == *name {
                return Some(i);
            }
            i += 1;
        }
        None
    }

    /// Whether a module is cached under `name`.
    pub fn contains(&self, name: &String) -> (found: bool)
        requires
            self.wf(),
        ensures
            found == self@.contains_key(name@),
    {
        match self.position(name) {
            Some(i) => {
                assert(texts(self.names@)[i as int] == name@);
                true
            },
            None => false,
        }
    }

    /// The module cached under `name`.
    pub fn get(&self, name: &String) -> (found: Option<&M>)
        requires
            self.wf(),
        ensures
            found matches Some(module) ==> self@.contains_key(name@) && *module == self@[name@],
            found is None ==> !self@.contains_key(name@),
    {
        match self.position(name) {
            Some(i) => {
                proof {
                    let names = texts(self.names@);
                    assert(names[i as int] == name@);
                    assert(names.contains(name@));
                    assert(names.index_of(name@) == i);
                }
                Some(&self.modules[i])
            },
            None => None,
        }
    }

    /// Puts `module` under `name`, in place of the module that was there
    /// if there was one. No other entry changes.
    pub fn insert(&mut self, name: String, module: M)
        requires
            old(self).wf(),
        ensures
            final(self).wf(),
            final(self)@ == old(self)@.insert(name@, module),
            old(self)@.contains_key(name@) ==> final(self).order() == old(self).order(),
            !old(self)@.contains_key(name@) ==> final(self).order() == old(self).order().push(name@),
    {
        let ghost before = texts(self.names@);
        let ghost held = self.modules@;
        match self.position(&name) {
            Some(i) => {
                self.modules.set(i, module);
                proof {
                    assert(before[i as int] == name@);
                    assert(before.contains(name@));
                    assert forall|key: Seq<char>| before.contains(key) implies (
                    #[trigger] self@[key]) == old(self)@.insert(name@, module)[key] by {
                        let at = before.index_of(key);
                        if key == name@ {
                            assert(at == i);
                        } else {
                            assert(at != i);
                        }
                    }
                    assert(self@ =~= old(self)@.insert(name@, module));
                }
            },
            None => {
                self.names.push(name);
                self.modules.push(module);
                proof {
                    let after = texts(self.names@);
                    assert(after =~= before.push(name@));
                    assert forall|key: Seq<char>| after.contains(key) implies (
                    #[trigger] self@[key]) == old(self)@.insert(name@, module)[key] by {
                        let at = after.index_of(key);
                        if key == name@ {
                            assert(after[before.len() as int] == name@);
                            assert(at == before.len());
                        } else {
                            assert(before[at] == key);
                            assert(before.contains(key));
                            assert(before.index_of(key) == at);
                        }
                    }
                    assert forall|key: Seq<char>| after.contains(key) <==> (before.contains(key)
                        || key == name@) by {
                        if before.contains(key) {
                            let at = before.index_of(key);
                            assert(after[at] == key);
                        }
                        if key == name@ {
                            assert(after[before.len() as int] == key);
                        }
                    }
                    assert(self@ =~= old(self)@.insert(name@, module));
                }
            },
        }
    }
}

} // verus!
