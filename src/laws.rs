use std::sync::Arc;
use crate::error::ResourceError;
use crate::system::{LoadStep, ResourceSystem};
use vstd::prelude::*;

verus! {

/// After a load of `key` as `ty` has succeeded, the next load of the same key
/// before any eviction is a hit: it gives the same value, caches nothing new,
/// and leaves every part of the state as it was, so no bytes are read or parsed.
pub proof fn lemma_cache_coherence<V, S>(
    s0: ResourceSystem<V, S>,
    s1: ResourceSystem<V, S>,
    s2: ResourceSystem<V, S>,
    ty: u64,
    key: u64,
    r1: Result<Arc<V>, ResourceError>,
    r2: Result<Arc<V>, ResourceError>,
)
    requires
        ResourceSystem::load_post(s0, s1, ty, key, r1),
        r1 is Ok,
        ResourceSystem::load_post(s1, s2, ty, key, r2),
    ensures
        r2 matches Ok(v2) && *v2 == *r1->Ok_0,
        s2.caches() == s1.caches(),
        s2.loading() == s1.loading(),
        s2.externs() == s1.externs(),
        s1.caches()[ty].contains_key(key),
{
}

/// While `key` is in flight, a nested load of it fails with
/// `CircularReferenceFound` and leaves the state as it found it, so the outer
/// load finishes as it would have without the nested one.
pub proof fn lemma_circular_detection<V, S>(
    s0: ResourceSystem<V, S>,
    s1: ResourceSystem<V, S>,
    s2: ResourceSystem<V, S>,
    ty: u64,
    key: u64,
    outer: LoadStep<V>,
    nested: Result<Arc<V>, ResourceError>,
)
    requires
        ResourceSystem::begin_post(s0, s1, ty, key, outer),
        outer == LoadStep::<V>::Fetch(key),
        ResourceSystem::load_post(s1, s2, ty, key, nested),
    ensures
        nested == Err::<Arc<V>, ResourceError>(ResourceError::CircularReferenceFound),
        s2.caches() == s1.caches(),
        s2.loading() == s1.loading(),
        s2.externs() == s1.externs(),
        s2.is_stopped() == s1.is_stopped(),
{
}

/// Registering a type twice neither replaces its cache nor drops any entry
/// cached before.
pub proof fn lemma_idempotent_registration<V, S>(
    s0: ResourceSystem<V, S>,
    s1: ResourceSystem<V, S>,
    s2: ResourceSystem<V, S>,
    ty: u64,
)
    requires
        ResourceSystem::register_post(s0, s1, ty),
        ResourceSystem::register_post(s1, s2, ty),
    ensures
        s2.caches() == s1.caches(),
        forall|t: u64| #[trigger]
            s0.caches().contains_key(t) ==> s2.caches().contains_key(t) && s2.caches()[t] == s0.caches()[t],
{
}

/// Two successful loads in a row leave both results cached, so an eviction
/// queued after them finds both in place.
pub proof fn lemma_fifo_loads_before_eviction<V, S>(
    s0: ResourceSystem<V, S>,
    s1: ResourceSystem<V, S>,
    s2: ResourceSystem<V, S>,
    t1: u64,
    k1: u64,
    r1: Result<Arc<V>, ResourceError>,
    t2: u64,
    k2: u64,
    r2: Result<Arc<V>, ResourceError>,
)
    requires
        ResourceSystem::load_post(s0, s1, t1, k1, r1),
        r1 is Ok,
        ResourceSystem::load_post(s1, s2, t2, k2, r2),
        r2 is Ok,
    ensures
        s2.caches().contains_key(t1) && s2.caches()[t1].contains_key(k1),
        s2.caches()[t1][k1] == *r1->Ok_0,
        s2.caches().contains_key(t2) && s2.caches()[t2].contains_key(k2),
        s2.caches()[t2][k2] == *r2->Ok_0,
{
    assert(s1.caches()[t1][k1] == *r1->Ok_0);
}

/// Once the worker is stopped, every load fails with `SystemUnavailable` and
/// changes nothing.
pub proof fn lemma_load_after_stop<V, S>(
    s1: ResourceSystem<V, S>,
    s2: ResourceSystem<V, S>,
    ty: u64,
    key: u64,
    r: Result<Arc<V>, ResourceError>,
)
    requires
        s1.is_stopped(),
        ResourceSystem::load_post(s1, s2, ty, key, r),
    ensures
        r == Err::<Arc<V>, ResourceError>(ResourceError::SystemUnavailable),
        s2.caches() == s1.caches(),
        s2.is_stopped(),
{
}

/// A stop taken after a load has finished leaves that load's result cached:
/// the stop ends later work, not work already done.
pub proof fn lemma_stop_keeps_finished_loads<V, S>(
    s0: ResourceSystem<V, S>,
    s1: ResourceSystem<V, S>,
    s2: ResourceSystem<V, S>,
    ty: u64,
    key: u64,
    r: Result<Arc<V>, ResourceError>,
)
    requires
        ResourceSystem::load_post(s0, s1, ty, key, r),
        r is Ok,
        s2.is_stopped(),
        s2.caches() == s1.caches(),
    ensures
        s2.caches().contains_key(ty) && s2.caches()[ty].contains_key(key),
        s2.caches()[ty][key] == *r->Ok_0,
{
}

} // verus!
