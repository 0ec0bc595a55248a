use crate::capability::ExternalResourceSystem;
use crate::error::ResourceError;
use vstd::prelude::*;

verus! {

/// One registered second-stage system.
pub struct ExternSystemWrapper<S> {
    system: S,
}

impl<S> ExternSystemWrapper<S> {
    /// Wraps `system`.
    pub fn new(system: S) -> (r: Self)
        ensures
            r.inner() == system,
    {
        ExternSystemWrapper { system }
    }

    /// The wrapped system.
    pub closed spec fn inner(&self) -> S {
        self.system
    }

    /// Asks the wrapped system to drop what it no longer needs.
    pub fn unload_unused<V>(&mut self) where S: ExternalResourceSystem<V> {
        self.system.unload_unused();
    }

    /// Runs the wrapped system's transform.
    pub fn load<V>(&mut self, path: &str, base: &V, options: S::Options) -> Result<V, ResourceError> where
        S: ExternalResourceSystem<V>,
    {
        self.system.load(path, base, options)
    }
}

/// The registered second-stage systems, by type token.
pub struct ExternRegistry<S> {
    slots: Vec<(u64, ExternSystemWrapper<S>)>,
}

impl<S> View for ExternRegistry<S> {
    type V = Seq<u64>;

    /// The registered tokens, in order of registration.
    closed spec fn view(&self) -> Seq<u64> {
        self.slots@.map_values(|s: (u64, ExternSystemWrapper<S>)| s.0)
    }
}

impl<S> ExternRegistry<S> {
    /// The registered systems, in the order of their tokens.
    pub closed spec fn systems(&self) -> Seq<S> {
        self.slots@.map_values(|s: (u64, ExternSystemWrapper<S>)| s.1.inner())
    }

    /// An empty registry.
    pub fn new() -> (r: Self)
        ensures
            r@ == Seq::<u64>::empty(),
    {
        ExternRegistry { slots: Vec::new() }
    }

    fn position(&self, token: u64) -> (r: Option<usize>)
        ensures
            match r {
                Some(i) => i < self@.len() && self@[i as int] == token,
                None => !self@.contains(token),
            },
    {
        let mut i: usize = 0;
        while i < self.slots.len()
            invariant
                i <= self.slots@.len(),
                forall|j: int| 0 <= j < i ==> self@[j] != token,
            decreases self.slots@.len() - i,
        {
            if self.slots[i].0 == token {
                return Some(i);
            }
            i = i + 1;
        }
        None
    }

    /// Whether a system is registered for `token`.
    pub fn is_registered(&self, token: u64) -> (r: bool)
        ensures
            r == self@.contains(token),
    {
        self.position(token).is_some()
    }

    /// Registers `system` for `token`, unless one is registered already; in
    /// that case `system` is dropped and the registry stays as it was.
    pub fn register(&mut self, token: u64, system: S)
        ensures
            old(self)@.contains(token) ==> *final(self) == *old(self),
            !old(self)@.contains(token) ==> final(self)@ == old(self)@.push(token)
                && final(self).systems() == old(self).systems().push(system),
    {
        if self.position(token).is_none() {
            self.slots.push((token, ExternSystemWrapper::new(system)));
            assert(self@ =~= old(self)@.push(token));
            assert(self.systems() =~= old(self).systems().push(system));
        }
    }

    /// Runs the transform of the system registered for `token`; fails with
    /// `NotRegistered`, touching nothing, when there is none.
    pub fn load<V>(&mut self, token: u64, path: &str, base: &V, options: S::Options) -> (r: Result<
        V,
        ResourceError,
    >) where S: ExternalResourceSystem<V>
        ensures
            final(self)@ == old(self)@,
            final(self).systems().len() == old(self).systems().len(),
            forall|j: int|
                0 <= j < old(self)@.len() && old(self)@[j] != token ==> #[trigger] final(self).systems()[j]
                    == old(self).systems()[j],
            !old(self)@.contains(token) ==> r == Err::<V, ResourceError>(
                ResourceError::NotRegistered,
            ) && *final(self) == *old(self),
    {
        match self.position(token) {
            None => Err(ResourceError::NotRegistered),
            Some(i) => {
                let r = self.slots[i].1.load(path, base, options);
                assert(self@ =~= old(self)@);
                assert forall|j: int|
                    0 <= j < old(self)@.len() && old(self)@[j] != token implies #[trigger] self.systems()[j]
                        == old(self).systems()[j] by {
                    assert(self.slots@[j] == old(self).slots@[j]);
                }
                r
            },
        }
    }

    /// Asks every registered system to drop what it no longer needs.
    pub fn unload_unused<V>(&mut self) where S: ExternalResourceSystem<V>
        ensures
            final(self)@ == old(self)@,
    {
        let mut i: usize = 0;
        while i < self.slots.len()
            invariant
                i <= self.slots@.len(),
                self@ == old(self)@,
            decreases self.slots@.len() - i,
        {
            self.slots[i].1.unload_unused();
            assert(self@ =~= old(self)@);
            i = i + 1;
        }
    }
}

} // verus!
