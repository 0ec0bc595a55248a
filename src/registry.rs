use std::sync::Arc;
use crate::arena::ArenaWrapper;
use crate::error::ResourceError;
use vstd::prelude::*;

verus! {

/// The caches of every registered resource type, by type token.
pub struct TypeRegistry<V> {
    slots: Vec<(u64, ArenaWrapper<V>)>,
    model: Ghost<Map<u64, Map<u64, V>>>,
}

impl<V> View for TypeRegistry<V> {
    type V = Map<u64, Map<u64, V>>;

    closed spec fn view(&self) -> Map<u64, Map<u64, V>> {
        self.model@
    }
}

impl<V> TypeRegistry<V> {
    /// Every slot holds a well-formed cache, the ghost model mirrors the slots,
    /// and no token has two slots.
    pub closed spec fn wf(&self) -> bool {
        &&& forall|t: u64|
            #![trigger self.model@.contains_key(t)]
            self.model@.contains_key(t) ==> exists|i: int|
                0 <= i < self.slots@.len() && #[trigger] self.slots@[i].0 == t
        &&& forall|i: int|
            #![trigger self.slots@[i]]
            0 <= i < self.slots@.len() ==> self.slots@[i].1.wf() && self.model@.contains_key(
                self.slots@[i].0,
            ) && self.model@[self.slots@[i].0] == self.slots@[i].1@
        &&& forall|i: int, j: int|
            0 <= i < j < self.slots@.len() ==> #[trigger] self.slots@[i].0
                != #[trigger] self.slots@[j].0
    }

    /// An empty registry.
    pub fn new() -> (r: Self)
        ensures
            r.wf(),
            r@ == Map::<u64, Map<u64, V>>::empty(),
    {
        TypeRegistry { slots: Vec::new(), model: Ghost(Map::empty()) }
    }

    fn position(&self, token: u64) -> (r: Option<usize>)
        requires
            self.wf(),
        ensures
            match r {
                Some(i) => i < self.slots@.len() && self.slots@[i as int].0 == token,
                None => !self@.contains_key(token),
            },
    {
        let mut i: usize = 0;
        while i < self.slots.len()
            invariant
                self.wf(),
                i <= self.slots@.len(),
                forall|j: int| 0 <= j < i ==> self.slots@[j].0 != token,
            decreases self.slots@.len() - i,
        {
            if self.slots[i].0 == token {
                return Some(i);
            }
            i = i + 1;
        }
        None
    }

    /// Whether a cache exists for `token`.
    pub fn is_registered(&self, token: u64) -> (r: bool)
        requires
            self.wf(),
        ensures
            r == self@.contains_key(token),
    {
        self.position(token).is_some()
    }

    /// Creates an empty cache for `token`, unless one exists already.
    pub fn register(&mut self, token: u64, capacity: usize)
        requires
            old(self).wf(),
        ensures
            final(self).wf(),
            final(self)@ == (if old(self)@.contains_key(token) {
                old(self)@
            } else {
                old(self)@.insert(token, Map::empty())
            }),
    {
        if self.position(token).is_some() {
            return;
        }
        let ghost prev = self.slots@;
        let ghost prev_model = self.model@;
        self.slots.push((token, ArenaWrapper::new(capacity)));
        self.model = Ghost(self.model@.insert(token, Map::empty()));
        let ghost at = prev.len() as int;
        assert(self.slots@[at].0 == token);
        assert forall|t: u64|
            #![trigger self.model@.contains_key(t)]
            self.model@.contains_key(t) implies exists|i: int|
                0 <= i < self.slots@.len() && #[trigger] self.slots@[i].0 == t by {
            if t != token {
                assert(prev_model.contains_key(t));
                let i = choose|i: int| 0 <= i < prev.len() && #[trigger] prev[i].0 == t;
                assert(self.slots@[i] == prev[i]);
            }
        }
        assert forall|i: int|
            #![trigger self.slots@[i]]
            0 <= i < self.slots@.len() implies self.slots@[i].1.wf() && self.model@.contains_key(
                self.slots@[i].0,
            ) && self.model@[self.slots@[i].0] == self.slots@[i].1@ by {
            if i != at {
                assert(self.slots@[i] == prev[i]);
            }
        }
        assert forall|i: int, j: int|
            0 <= i < j < self.slots@.len() implies #[trigger] self.slots@[i].0
                != #[trigger] self.slots@[j].0 by {
            assert(self.slots@[i] == prev[i]);
            if j != at {
                assert(self.slots@[j] == prev[j]);
            }
        }
    }

    /// Looks `key` up in the cache of `token`.
    pub fn lookup(&self, token: u64, key: u64) -> (r: Result<Option<Arc<V>>, ResourceError>)
        requires
            self.wf(),
        ensures
            match r {
                Err(e) => e == ResourceError::NotRegistered && !self@.contains_key(token),
                Ok(Some(v)) => self@.contains_key(token) && self@[token].contains_key(key)
                    && *v == self@[token][key],
                Ok(None) => self@.contains_key(token) && !self@[token].contains_key(key),
            },
    {
        match self.position(token) {
            Some(i) => Ok(self.slots[i].1.get(key)),
            None => Err(ResourceError::NotRegistered),
        }
    }

    /// Caches `value` under `key` in the cache of `token`.
    pub fn store(&mut self, token: u64, key: u64, value: Arc<V>) -> (r: Result<(), ResourceError>)
        requires
            old(self).wf(),
        ensures
            final(self).wf(),
            match r {
                Err(e) => e == ResourceError::NotRegistered && !old(self)@.contains_key(token)
                    && final(self)@ == old(self)@,
                Ok(()) => old(self)@.contains_key(token) && final(self)@ == old(self)@.insert(
                    token,
                    old(self)@[token].insert(key, *value),
                ),
            },
    {
        match self.position(token) {
            None => Err(ResourceError::NotRegistered),
            Some(i) => {
                let ghost prev = self.slots@;
                let ghost v = crate::arena::value_of(value);
                self.slots[i].1.insert(key, value);
                self.model = Ghost(self.model@.insert(token, self.slots@[i as int].1@));
                assert(self.model@[token] == old(self)@[token].insert(key, v));
                assert forall|t: u64|
                    #![trigger self.model@.contains_key(t)]
                    self.model@.contains_key(t) implies exists|j: int|
                        0 <= j < self.slots@.len() && #[trigger] self.slots@[j].0 == t by {
                    if t != token {
                        assert(old(self).model@.contains_key(t));
                        let j = choose|j: int| 0 <= j < prev.len() && #[trigger] prev[j].0 == t;
                        assert(self.slots@[j].0 == prev[j].0);
                    } else {
                        assert(self.slots@[i as int].0 == t);
                    }
                }
                assert forall|j: int|
                    #![trigger self.slots@[j]]
                    0 <= j < self.slots@.len() implies self.slots@[j].1.wf()
                        && self.model@.contains_key(self.slots@[j].0) && self.model@[self.slots@[j].0]
                        == self.slots@[j].1@ by {
                    if j != i {
                        assert(self.slots@[j] == prev[j]);
                    }
                }
                assert forall|a: int, b: int|
                    0 <= a < b < self.slots@.len() implies #[trigger] self.slots@[a].0
                        != #[trigger] self.slots@[b].0 by {
                    assert(self.slots@[a].0 == prev[a].0);
                    assert(self.slots@[b].0 == prev[b].0);
                }
                Ok(())
            },
        }
    }

    /// Asks every cache to drop the entries nobody else holds.
    pub fn unload_unused(&mut self)
        requires
            old(self).wf(),
        ensures
            final(self).wf(),
            final(self)@.dom() == old(self)@.dom(),
            forall|t: u64| #[trigger]
                final(self)@.contains_key(t) ==> final(self)@[t].submap_of(old(self)@[t]),
    {
        let mut i: usize = 0;
        while i < self.slots.len()
            invariant
                self.wf(),
                i <= self.slots@.len(),
                self.slots@.len() == old(self).slots@.len(),
                self@.dom() == old(self)@.dom(),
                forall|j: int| 0 <= j < self.slots@.len() ==> #[trigger] self.slots@[j].0 == old(self).slots@[j].0,
                forall|t: u64| #[trigger]
                    self@.contains_key(t) ==> self@[t].submap_of(old(self)@[t]),
            decreases self.slots@.len() - i,
        {
            let ghost prev = self.slots@;
            let ghost prev_model = self.model@;
            let ghost token = prev[i as int].0;
            self.slots[i].1.unload_unused();
            self.model = Ghost(self.model@.insert(token, self.slots@[i as int].1@));
            assert forall|t: u64|
                #![trigger self.model@.contains_key(t)]
                self.model@.contains_key(t) implies exists|j: int|
                    0 <= j < self.slots@.len() && #[trigger] self.slots@[j].0 == t by {
                assert(prev_model.contains_key(t));
                let j = choose|j: int| 0 <= j < prev.len() && #[trigger] prev[j].0 == t;
                assert(self.slots@[j].0 == prev[j].0);
            }
            assert forall|j: int|
                #![trigger self.slots@[j]]
                0 <= j < self.slots@.len() implies self.slots@[j].1.wf()
                    && self.model@.contains_key(self.slots@[j].0) && self.model@[self.slots@[j].0]
                    == self.slots@[j].1@ by {
                if j != i {
                    assert(self.slots@[j] == prev[j]);
                }
            }
            assert forall|a: int, b: int|
                0 <= a < b < self.slots@.len() implies #[trigger] self.slots@[a].0
                    != #[trigger] self.slots@[b].0 by {
                assert(self.slots@[a].0 == prev[a].0);
                assert(self.slots@[b].0 == prev[b].0);
            }
            assert forall|t: u64| #[trigger]
                self@.contains_key(t) implies self@[t].submap_of(old(self)@[t]) by {
                if t != token {
                    assert(prev_model.contains_key(t));
                } else {
                    assert(prev_model[token] == prev[i as int].1@);
                    assert(self@[token].submap_of(prev_model[token]));
                    assert(prev_model[token].submap_of(old(self)@[token]));
                    assert forall|k: u64| #[trigger] self@[token].contains_key(k) implies
                        old(self)@[token].contains_key(k) && self@[token][k] == old(self)@[token][k] by {
                        assert(prev_model[token].contains_key(k));
                    }
                }
            }
            i = i + 1;
        }
    }
}

} // verus!
