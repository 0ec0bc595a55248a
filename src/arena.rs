use std::sync::Arc;
use vstd::prelude::*;

verus! {

/// Relies on `Arc::clone`: the new handle points at the same value.
#[verifier::external_body]
pub(crate) fn share<V>(a: &Arc<V>) -> (r: Arc<V>)
    ensures
        r == *a,
{
    Arc::clone(a)
}

/// Relies on `Arc::strong_count`: how many handles to the value are alive now.
#[verifier::external_body]
fn holders<V>(a: &Arc<V>) -> (r: usize) {
    Arc::strong_count(a)
}

/// The value a shared handle points at.
pub open spec fn value_of<V>(a: Arc<V>) -> V {
    *a
}

/// Whether `key` is one of `keys`.
fn listed(keys: &Vec<u64>, key: u64) -> (r: bool)
    ensures
        r == keys@.contains(key),
{
    let mut i: usize = 0;
    while i < keys.len()
        invariant
            i <= keys@.len(),
            forall|j: int| 0 <= j < i ==> keys@[j] != key,
        decreases keys@.len() - i,
    {
        if keys[i] == key {
            return true;
        }
        i = i + 1;
    }
    false
}

/// The cache of one resource type: shared resource handles by key.
pub struct ArenaWrapper<V> {
    entries: Vec<(u64, Arc<V>)>,
    contents: Ghost<Map<u64, V>>,
}

impl<V> View for ArenaWrapper<V> {
    type V = Map<u64, V>;

    closed spec fn view(&self) -> Map<u64, V> {
        self.contents@
    }
}

impl<V> ArenaWrapper<V> {
    /// The entries and the ghost contents describe the same map.
    pub closed spec fn wf(&self) -> bool {
        &&& forall|k: u64|
            #![trigger self.contents@.contains_key(k)]
            self.contents@.contains_key(k) ==> exists|i: int|
                0 <= i < self.entries@.len() && #[trigger] self.entries@[i].0 == k
        &&& forall|i: int|
            #![trigger self.entries@[i]]
            0 <= i < self.entries@.len() ==> self.contents@.contains_key(self.entries@[i].0)
                && self.contents@[self.entries@[i].0] == *self.entries@[i].1
        &&& forall|i: int, j: int|
            0 <= i < j < self.entries@.len() ==> #[trigger] self.entries@[i].0
                != #[trigger] self.entries@[j].0
    }

    /// Creates an empty cache with room for `capacity` entries.
    pub fn new(capacity: usize) -> (r: Self)
        ensures
            r.wf(),
            r@ == Map::<u64, V>::empty(),
    {
        ArenaWrapper { entries: Vec::with_capacity(capacity), contents: Ghost(Map::empty()) }
    }

    fn position(&self, key: u64) -> (r: Option<usize>)
        requires
            self.wf(),
        ensures
            match r {
                Some(i) => i < self.entries@.len() && self.entries@[i as int].0 == key,
                None => !self@.contains_key(key),
            },
    {
        let mut i: usize = 0;
        while i < self.entries.len()
            invariant
                self.wf(),
                i <= self.entries@.len(),
                forall|j: int| 0 <= j < i ==> self.entries@[j].0 != key,
            decreases self.entries@.len() - i,
        {
            if self.entries[i].0 == key {
                return Some(i);
            }
            i = i + 1;
        }
        None
    }

    /// Looks `key` up; a hit hands out another handle to the cached value.
    pub fn get(&self, key: u64) -> (r: Option<Arc<V>>)
        requires
            self.wf(),
        ensures
            match r {
                Some(v) => self@.contains_key(key) && *v == self@[key],
                None => !self@.contains_key(key),
            },
    {
        match self.position(key) {
            Some(i) => Some(share(&self.entries[i].1)),
            None => None,
        }
    }

    /// Caches `value` under `key`, replacing what was there.
    pub fn insert(&mut self, key: u64, value: Arc<V>)
        requires
            old(self).wf(),
        ensures
            final(self).wf(),
            final(self)@ == old(self)@.insert(key, *value),
    {
        let ghost v = value_of(value);
        let ghost prev = self.entries@;
        let ghost prev_contents = self.contents@;
        let pos = self.position(key);
        let ghost at: int = match pos {
            Some(i) => i as int,
            None => prev.len() as int,
        };
        match pos {
            Some(i) => {
                self.entries.set(i, (key, value));
            },
            None => {
                self.entries.push((key, value));
            },
        }
        assert(self.entries@[at].0 == key);
        self.contents = Ghost(self.contents@.insert(key, v));
        assert forall|k: u64|
            #![trigger self.contents@.contains_key(k)]
            self.contents@.contains_key(k) implies exists|i: int|
                0 <= i < self.entries@.len() && #[trigger] self.entries@[i].0 == k by {
            if k != key {
                assert(prev_contents.contains_key(k));
                let i = choose|i: int| 0 <= i < prev.len() && #[trigger] prev[i].0 == k;
                assert(self.entries@[i] == prev[i]);
            } else {
                assert(self.entries@[at].0 == k);
            }
        }
        assert forall|i: int|
            #![trigger self.entries@[i]]
            0 <= i < self.entries@.len() implies self.contents@.contains_key(self.entries@[i].0)
                && self.contents@[self.entries@[i].0] == *self.entries@[i].1 by {
            if i != at {
                assert(self.entries@[i] == prev[i]);
                assert(prev_contents.contains_key(prev[i].0));
            }
        }
        assert forall|i: int, j: int|
            0 <= i < j < self.entries@.len() implies #[trigger] self.entries@[i].0
                != #[trigger] self.entries@[j].0 by {
            if i != at && j != at {
                assert(self.entries@[i] == prev[i]);
                assert(self.entries@[j] == prev[j]);
            } else if i == at {
                assert(self.entries@[j] == prev[j]);
                assert(prev_contents.contains_key(prev[j].0));
            } else {
                assert(self.entries@[i] == prev[i]);
                assert(prev_contents.contains_key(prev[i].0));
            }
        }
    }

    /// The keys whose handle, when looked at, was held by nobody but this cache.
    pub fn unused_keys(&self) -> (r: Vec<u64>)
        requires
            self.wf(),
        ensures
            forall|k: u64| r@.contains(k) ==> self@.contains_key(k),
    {
        let mut unused: Vec<u64> = Vec::new();
        let mut i: usize = 0;
        while i < self.entries.len()
            invariant
                self.wf(),
                i <= self.entries@.len(),
                forall|k: u64| unused@.contains(k) ==> self@.contains_key(k),
            decreases self.entries@.len() - i,
        {
            if holders(&self.entries[i].1) <= 1 {
                let key = self.entries[i].0;
                let ghost prev = unused@;
                unused.push(key);
                assert forall|k: u64| unused@.contains(k) implies self@.contains_key(k) by {
                    let j = choose|j: int| 0 <= j < unused@.len() && unused@[j] == k;
                    if j < prev.len() {
                        assert(prev[j] == k);
                        assert(prev.contains(k));
                    } else {
                        assert(self.entries@[i as int].0 == k);
                    }
                }
            }
            i = i + 1;
        }
        unused
    }

    /// Drops every entry whose handle is held by nobody but this cache: the
    /// keys found unused by `unused_keys` are removed by `remove_unused`.
    pub fn unload_unused(&mut self)
        requires
            old(self).wf(),
        ensures
            final(self).wf(),
            final(self)@.submap_of(old(self)@),
    {
        let unused = self.unused_keys();
        self.remove_unused(&unused);
    }

    /// Removes exactly the entries whose keys are listed in `unused`.
    pub fn remove_unused(&mut self, unused: &Vec<u64>)
        requires
            old(self).wf(),
        ensures
            final(self).wf(),
            final(self)@ == old(self)@.remove_keys(unused@.to_set()),
    {
        let mut kept: Vec<(u64, Arc<V>)> = Vec::new();
        let ghost mut keys: Set<u64> = Set::empty();
        let mut i: usize = 0;
        while i < self.entries.len()
            invariant
                self.wf(),
                self.contents == old(self).contents,
                i <= self.entries@.len(),
                keys.subset_of(self@.dom()),
                forall|k: u64| #![trigger keys.contains(k)] keys.contains(k) ==> exists|j: int|
                    0 <= j < kept@.len() && #[trigger] kept@[j].0 == k,
                forall|j: int| #![trigger kept@[j]] 0 <= j < kept@.len() ==> keys.contains(kept@[j].0)
                    && self@[kept@[j].0] == *kept@[j].1,
                forall|j: int| #![trigger kept@[j]] 0 <= j < kept@.len() ==> exists|m: int|
                    0 <= m < i && #[trigger] self.entries@[m].0 == kept@[j].0,
                forall|a: int, b: int|
                    0 <= a < b < kept@.len() ==> #[trigger] kept@[a].0 != #[trigger] kept@[b].0,
                forall|k: u64| #![trigger keys.contains(k)] keys.contains(k) ==> !unused@.contains(k),
                forall|m: int| #![trigger self.entries@[m]] 0 <= m < i && !unused@.contains(self.entries@[m].0)
                    ==> keys.contains(self.entries@[m].0),
            decreases self.entries@.len() - i,
        {
            if !listed(unused, self.entries[i].0) {
                let key = self.entries[i].0;
                let handle = share(&self.entries[i].1);
                let ghost prev = kept@;
                let ghost prev_keys = keys;
                proof {
                    keys = keys.insert(key);
                }
                kept.push((key, handle));
                assert(kept@[kept@.len() - 1].0 == key);
                assert forall|j: int| #![trigger kept@[j]] 0 <= j < kept@.len() implies exists|m: int|
                    0 <= m < i + 1 && #[trigger] self.entries@[m].0 == kept@[j].0 by {
                    if j < prev.len() {
                        assert(kept@[j] == prev[j]);
                    } else {
                        assert(self.entries@[i as int].0 == kept@[j].0);
                    }
                }
                assert forall|a: int, b: int|
                    0 <= a < b < kept@.len() implies #[trigger] kept@[a].0 != #[trigger] kept@[b].0 by {
                    assert(kept@[a] == prev[a]);
                    if b < prev.len() {
                        assert(kept@[b] == prev[b]);
                    } else {
                        let m = choose|m: int| 0 <= m < i && #[trigger] self.entries@[m].0 == prev[a].0;
                        assert(self.entries@[m].0 != self.entries@[i as int].0);
                    }
                }
                assert forall|k: u64| #![trigger keys.contains(k)] keys.contains(k) implies exists|j: int|
                    0 <= j < kept@.len() && #[trigger] kept@[j].0 == k by {
                    if k != key {
                        assert(prev_keys.contains(k));
                        let j = choose|j: int| 0 <= j < prev.len() && #[trigger] prev[j].0 == k;
                        assert(kept@[j] == prev[j]);
                    }
                }
            }
            i = i + 1;
        }
        assert(self@.restrict(keys) =~= self@.remove_keys(unused@.to_set())) by {
            assert forall|k: u64| #[trigger] self@.contains_key(k) && !unused@.contains(k) implies keys.contains(k) by {
                let m = choose|m: int| 0 <= m < self.entries@.len() && #[trigger] self.entries@[m].0 == k;
                assert(self.entries@[m].0 == k);
            }
        }
        let ghost contents = self@.restrict(keys);
        let ghost kept_view = kept@;
        self.entries = kept;
        self.contents = Ghost(contents);
        assert forall|k: u64|
            #![trigger self.contents@.contains_key(k)]
            self.contents@.contains_key(k) implies exists|i: int|
                0 <= i < self.entries@.len() && #[trigger] self.entries@[i].0 == k by {
            assert(keys.contains(k));
            let j = choose|j: int| 0 <= j < kept_view.len() && #[trigger] kept_view[j].0 == k;
            assert(self.entries@[j].0 == k);
        }
        assert forall|a: int, b: int|
            0 <= a < b < self.entries@.len() implies #[trigger] self.entries@[a].0
                != #[trigger] self.entries@[b].0 by {
            assert(self.entries@[a] == kept_view[a]);
            assert(self.entries@[b] == kept_view[b]);
        }
    }
}

} // verus!
