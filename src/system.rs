use std::sync::Arc;
use crate::capability::{ExternalResourceSystem, Filesystem, ResourceParser};
use crate::error::ResourceError;
use crate::externs::ExternRegistry;
use crate::key::{path_key, resource_key};
use crate::registry::TypeRegistry;
use vstd::prelude::*;

verus! {

/// What the worker decides when a load of a path begins.
pub enum LoadStep<V> {
    /// The resource is cached: here is the shared handle; no I/O is needed.
    Hit(Arc<V>),
    /// The load fails at once, without I/O.
    Failed(ResourceError),
    /// The key is now in flight: read and parse the path, then call `finish_load`.
    Fetch(u64),
}

/// One unit of work for the worker, taken from the queue in order.
pub enum Task<O> {
    Load { ty: u64, path: String },
    ExternLoad { ty: u64, system: u64, path: String, options: O },
    UnloadUnused,
    Stop,
}

/// The state that the single worker owns: the caches of every registered type,
/// the second-stage systems, the keys being parsed, and whether it was stopped.
pub struct ResourceSystem<V, S> {
    arenas: TypeRegistry<V>,
    externs: ExternRegistry<S>,
    in_flight: Vec<u64>,
    stopped: bool,
}

impl<V, S> ResourceSystem<V, S> {
    /// The cached resources: type token to (key to value).
    pub closed spec fn caches(&self) -> Map<u64, Map<u64, V>> {
        self.arenas@
    }

    /// The second-stage systems, with their own state.
    pub closed spec fn externs(&self) -> ExternRegistry<S> {
        self.externs
    }

    /// The keys whose bytes are being read and parsed.
    pub closed spec fn loading(&self) -> Set<u64> {
        self.in_flight@.to_set()
    }

    /// Whether the worker has received its stop signal.
    pub closed spec fn is_stopped(&self) -> bool {
        self.stopped
    }

    /// The caches are well formed and no key is in flight twice.
    pub closed spec fn wf(&self) -> bool {
        self.arenas.wf() && self.in_flight@.no_duplicates()
    }

    /// What a finished load of `key` as type `ty` has done, with result `r`,
    /// leaving the second-stage systems aside.
    pub open spec fn load_core(pre: Self, post: Self, ty: u64, key: u64, r: Result<Arc<V>, ResourceError>) -> bool {
        &&& post.is_stopped() == pre.is_stopped()
        &&& post.loading() == pre.loading()
        &&& if pre.is_stopped() {
            r == Err::<Arc<V>, ResourceError>(ResourceError::SystemUnavailable) && post.caches() == pre.caches()
        } else if !pre.caches().contains_key(ty) {
            r == Err::<Arc<V>, ResourceError>(ResourceError::NotRegistered) && post.caches() == pre.caches()
        } else if pre.caches()[ty].contains_key(key) {
            &&& r matches Ok(v)
            &&& *v == pre.caches()[ty][key]
            &&& post.caches() == pre.caches()
        } else if pre.loading().contains(key) {
            r == Err::<Arc<V>, ResourceError>(ResourceError::CircularReferenceFound) && post.caches() == pre.caches()
        } else {
            match r {
                Ok(v) => post.caches() == pre.caches().insert(ty, pre.caches()[ty].insert(key, *v)),
                Err(_) => post.caches() == pre.caches(),
            }
        }
    }

    /// What beginning a load of `key` as type `ty` decided and did.
    pub open spec fn begin_post(pre: Self, post: Self, ty: u64, key: u64, r: LoadStep<V>) -> bool {
        &&& post.caches() == pre.caches()
        &&& post.externs() == pre.externs()
        &&& post.is_stopped() == pre.is_stopped()
        &&& if pre.is_stopped() {
            r == LoadStep::<V>::Failed(ResourceError::SystemUnavailable) && post.loading() == pre.loading()
        } else if !pre.caches().contains_key(ty) {
            r == LoadStep::<V>::Failed(ResourceError::NotRegistered) && post.loading() == pre.loading()
        } else if pre.caches()[ty].contains_key(key) {
            &&& r matches LoadStep::Hit(v)
            &&& *v == pre.caches()[ty][key]
            &&& post.loading() == pre.loading()
        } else if pre.loading().contains(key) {
            r == LoadStep::<V>::Failed(ResourceError::CircularReferenceFound) && post.loading() == pre.loading()
        } else {
            r == LoadStep::<V>::Fetch(key) && post.loading() == pre.loading().insert(key)
        }
    }

    /// What registering type `ty` did: a new type gets an empty cache, a known
    /// one keeps its cache as it was.
    pub open spec fn register_post(pre: Self, post: Self, ty: u64) -> bool {
        &&& post.caches() == (if pre.caches().contains_key(ty) {
            pre.caches()
        } else {
            pre.caches().insert(ty, Map::empty())
        })
        &&& post.externs() == pre.externs()
        &&& post.loading() == pre.loading()
        &&& post.is_stopped() == pre.is_stopped()
    }

    /// What a finished load did, second-stage systems included: they are untouched.
    pub open spec fn load_post(pre: Self, post: Self, ty: u64, key: u64, r: Result<Arc<V>, ResourceError>) -> bool {
        Self::load_core(pre, post, ty, key, r) && post.externs() == pre.externs()
    }

    /// What a chained load did: the first stage behaved as a load; when it
    /// failed its error is the result and no second-stage system ran; when it
    /// succeeded but no system is registered as `system`, the result is
    /// `NotRegistered`.
    pub open spec fn load_extern_post(pre: Self, post: Self, ty: u64, system: u64, key: u64, r: Result<Arc<V>, ResourceError>) -> bool {
        &&& post.externs()@ == pre.externs()@
        &&& exists|base: Result<Arc<V>, ResourceError>| {
            &&& #[trigger] Self::load_core(pre, post, ty, key, base)
            &&& base matches Err(e) ==> r == Err::<Arc<V>, ResourceError>(e) && post.externs() == pre.externs()
            &&& (base is Ok && !pre.externs()@.contains(system)) ==> r == Err::<Arc<V>, ResourceError>(
                ResourceError::NotRegistered,
            ) && post.externs() == pre.externs()
        }
    }

    /// What eviction did: no type is dropped, every cache keeps a part of itself,
    /// and the second-stage systems stay registered.
    pub open spec fn evict_post(pre: Self, post: Self) -> bool {
        &&& post.caches().dom() == pre.caches().dom()
        &&& forall|t: u64| #[trigger]
            post.caches().contains_key(t) ==> post.caches()[t].submap_of(pre.caches()[t])
        &&& post.externs()@ == pre.externs()@
        &&& post.loading() == pre.loading()
        &&& post.is_stopped() == pre.is_stopped()
    }

    /// A system with nothing registered and nothing in flight.
    pub fn new() -> (r: Self)
        ensures
            r.wf(),
            r.caches() == Map::<u64, Map<u64, V>>::empty(),
            r.externs()@ == Seq::<u64>::empty(),
            r.loading() == Set::<u64>::empty(),
            !r.is_stopped(),
    {
        let r = ResourceSystem {
            arenas: TypeRegistry::new(),
            externs: ExternRegistry::new(),
            in_flight: Vec::new(),
            stopped: false,
        };
        assert(r.loading() =~= Set::<u64>::empty());
        r
    }

    /// Creates the cache of type `ty`, unless it exists already: cached
    /// entries are never discarded by registering again.
    pub fn register(&mut self, ty: u64, size: usize)
        requires
            old(self).wf(),
        ensures
            final(self).wf(),
            Self::register_post(*old(self), *final(self), ty),
    {
        self.arenas.register(ty, size);
    }

    /// Registers the second-stage system `system` as `ty`, unless one is.
    pub fn register_extern_system(&mut self, ty: u64, system: S)
        requires
            old(self).wf(),
        ensures
            final(self).wf(),
            old(self).externs()@.contains(ty) ==> final(self).externs() == old(self).externs(),
            !old(self).externs()@.contains(ty) ==> final(self).externs()@ == old(self).externs()@.push(ty)
                && final(self).externs().systems() == old(self).externs().systems().push(system),
            final(self).caches() == old(self).caches(),
            final(self).loading() == old(self).loading(),
            final(self).is_stopped() == old(self).is_stopped(),
    {
        self.externs.register(ty, system);
    }

    /// The synchronous lookup of a caller: the cached handle of `path` as type
    /// `ty`, if there is one.
    pub fn cached(&self, ty: u64, path: &str) -> (r: Option<Arc<V>>)
        requires
            self.wf(),
        ensures
            match r {
                Some(v) => self.caches().contains_key(ty) && self.caches()[ty].contains_key(
                    path_key(path@),
                ) && *v == self.caches()[ty][path_key(path@)],
                None => !self.caches().contains_key(ty) || !self.caches()[ty].contains_key(
                    path_key(path@),
                ),
            },
    {
        let key = resource_key(path);
        match self.arenas.lookup(ty, key) {
            Ok(found) => found,
            Err(_) => None,
        }
    }

    fn in_flight_position(&self, key: u64) -> (r: Option<usize>)
        ensures
            match r {
                Some(i) => i < self.in_flight@.len() && self.in_flight@[i as int] == key,
                None => !self.in_flight@.contains(key),
            },
    {
        let mut i: usize = 0;
        while i < self.in_flight.len()
            invariant
                i <= self.in_flight@.len(),
                forall|j: int| 0 <= j < i ==> self.in_flight@[j] != key,
            decreases self.in_flight@.len() - i,
        {
            if self.in_flight[i] == key {
                return Some(i);
            }
            i = i + 1;
        }
        None
    }

    /// The first half of a load: decides from the state alone whether the
    /// load is a hit, fails at once, or needs the bytes of `path`; in that
    /// last case the key is marked in flight.
    pub fn begin_load(&mut self, ty: u64, path: &str) -> (r: LoadStep<V>)
        requires
            old(self).wf(),
        ensures
            final(self).wf(),
            Self::begin_post(*old(self), *final(self), ty, path_key(path@), r),
    {
        if self.stopped {
            return LoadStep::Failed(ResourceError::SystemUnavailable);
        }
        let key = resource_key(path);
        match self.arenas.lookup(ty, key) {
            Err(e) => LoadStep::Failed(e),
            Ok(Some(v)) => LoadStep::Hit(v),
            Ok(None) => {
                if self.in_flight_position(key).is_some() {
                    return LoadStep::Failed(ResourceError::CircularReferenceFound);
                }
                let ghost prev = self.in_flight@;
                self.in_flight.push(key);
                assert(self.in_flight@.to_set() =~= prev.to_set().insert(key)) by {
                    assert forall|x: u64| #[trigger] self.in_flight@.contains(x) implies
                        prev.contains(x) || x == key by {
                        let i = choose|i: int| 0 <= i < self.in_flight@.len() && self.in_flight@[i] == x;
                        if i < prev.len() {
                            assert(prev[i] == x);
                        }
                    }
                    assert forall|x: u64| prev.contains(x) || x == key implies
                        #[trigger] self.in_flight@.contains(x) by {
                        if x == key {
                            assert(self.in_flight@[prev.len() as int] == key);
                        } else {
                            let i = choose|i: int| 0 <= i < prev.len() && prev[i] == x;
                            assert(self.in_flight@[i] == x);
                        }
                    }
                }
                assert(self.in_flight@.no_duplicates()) by {
                    assert forall|i: int, j: int|
                        0 <= i < self.in_flight@.len() && 0 <= j < self.in_flight@.len() && i != j
                        implies self.in_flight@[i] != self.in_flight@[j] by {
                        if i < prev.len() && j < prev.len() {
                        } else if i < prev.len() {
                            assert(prev.contains(prev[i]));
                        } else {
                            assert(prev.contains(prev[j]));
                        }
                    }
                }
                LoadStep::Fetch(key)
            },
        }
    }

    /// The second half of a load, given what reading and parsing gave: the key
    /// leaves the in-flight set whatever happened; a parsed value is shared,
    /// cached under `key` and returned; a failure is returned as it is.
    pub fn finish_load(&mut self, ty: u64, key: u64, parsed: Result<V, ResourceError>) -> (r: Result<
        Arc<V>,
        ResourceError,
    >)
        requires
            old(self).wf(),
        ensures
            final(self).wf(),
            final(self).loading() == old(self).loading().remove(key),
            final(self).externs() == old(self).externs(),
            final(self).is_stopped() == old(self).is_stopped(),
            match parsed {
                Err(e) => r == Err::<Arc<V>, ResourceError>(e) && final(self).caches() == old(
                    self,
                ).caches(),
                Ok(v) => if old(self).caches().contains_key(ty) {
                    &&& r matches Ok(a)
                    &&& *a == v
                    &&& final(self).caches() == old(self).caches().insert(
                        ty,
                        old(self).caches()[ty].insert(key, v),
                    )
                } else {
                    r == Err::<Arc<V>, ResourceError>(ResourceError::NotRegistered)
                        && final(self).caches() == old(self).caches()
                },
            },
    {
        if let Some(i) = self.in_flight_position(key) {
            let ghost prev = self.in_flight@;
            self.in_flight.remove(i);
            assert(self.in_flight@.to_set() =~= prev.to_set().remove(key)) by {
                assert forall|x: u64| #[trigger] self.in_flight@.contains(x) implies
                    prev.contains(x) && x != key by {
                    let j = choose|j: int| 0 <= j < self.in_flight@.len() && self.in_flight@[j] == x;
                    if j < i {
                        assert(prev[j] == x);
                    } else {
                        assert(prev[j + 1] == x);
                    }
                }
                assert forall|x: u64| prev.contains(x) && x != key implies
                    #[trigger] self.in_flight@.contains(x) by {
                    let j = choose|j: int| 0 <= j < prev.len() && prev[j] == x;
                    if j < i {
                        assert(self.in_flight@[j] == x);
                    } else {
                        assert(self.in_flight@[j - 1] == x);
                    }
                }
            }
            assert(self.in_flight@.no_duplicates()) by {
                assert forall|a: int, b: int|
                    0 <= a < self.in_flight@.len() && 0 <= b < self.in_flight@.len() && a != b
                    implies self.in_flight@[a] != self.in_flight@[b] by {
                    let pa = if a < i { a } else { a + 1 };
                    let pb = if b < i { b } else { b + 1 };
                    assert(self.in_flight@[a] == prev[pa]);
                    assert(self.in_flight@[b] == prev[pb]);
                }
            }
        } else {
            assert(self.in_flight@.to_set() =~= old(self).in_flight@.to_set().remove(key));
        }
        match parsed {
            Err(e) => Err(e),
            Ok(v) => {
                let shared = Arc::new(v);
                let handle = crate::arena::share(&shared);
                match self.arenas.store(ty, key, shared) {
                    Ok(()) => Ok(handle),
                    Err(e) => Err(e),
                }
            },
        }
    }

    /// Loads `path` as type `ty`: a cached handle comes back at once; else the
    /// bytes are read from `fs`, parsed by `parser`, cached and shared.
    pub fn load<F: Filesystem, P: ResourceParser<V>>(&mut self, ty: u64, path: &str, fs: &F, parser: &P) -> (r: Result<
        Arc<V>,
        ResourceError,
    >)
        requires
            old(self).wf(),
        ensures
            final(self).wf(),
            Self::load_post(*old(self), *final(self), ty, path_key(path@), r),
    {
        match self.begin_load(ty, path) {
            LoadStep::Hit(v) => Ok(v),
            LoadStep::Failed(e) => Err(e),
            LoadStep::Fetch(key) => {
                let mut bytes: Vec<u8> = Vec::new();
                let parsed = match fs.load_into(path, &mut bytes) {
                    Ok(()) => parser.parse(ty, bytes.as_slice()),
                    Err(e) => Err(e),
                };
                let r = self.finish_load(ty, key, parsed);
                assert(self.loading() =~= old(self).loading());
                r
            },
        }
    }

    /// The second stage of a chained load, given the outcome of the first: a
    /// failed first stage is passed on as it is and no system is run; else the
    /// system registered as `system` builds the result from the base value.
    pub fn extern_stage(&mut self, system: u64, path: &str, base: Result<Arc<V>, ResourceError>, options: S::Options) -> (r: Result<
        Arc<V>,
        ResourceError,
    >) where S: ExternalResourceSystem<V>
        requires
            old(self).wf(),
        ensures
            final(self).wf(),
            final(self).caches() == old(self).caches(),
            final(self).loading() == old(self).loading(),
            final(self).is_stopped() == old(self).is_stopped(),
            final(self).externs()@ == old(self).externs()@,
            match base {
                Err(e) => r == Err::<Arc<V>, ResourceError>(e) && *final(self) == *old(self),
                Ok(_) => !old(self).externs()@.contains(system) ==> r == Err::<Arc<V>, ResourceError>(
                    ResourceError::NotRegistered,
                ) && *final(self) == *old(self),
            },
    {
        match base {
            Err(e) => Err(e),
            Ok(value) => {
                match self.externs.load(system, path, &*value, options) {
                    Ok(item) => Ok(Arc::new(item)),
                    Err(e) => Err(e),
                }
            },
        }
    }

    /// Loads `path` as type `ty`, then, only if that succeeded, builds the
    /// dependent resource with the system registered as `system`.
    pub fn load_extern<F: Filesystem, P: ResourceParser<V>>(&mut self, ty: u64, system: u64, path: &str, options: S::Options, fs: &F, parser: &P) -> (r: Result<
        Arc<V>,
        ResourceError,
    >) where S: ExternalResourceSystem<V>
        requires
            old(self).wf(),
        ensures
            final(self).wf(),
            Self::load_extern_post(*old(self), *final(self), ty, system, path_key(path@), r),
    {
        let base = self.load(ty, path, fs, parser);
        let r = self.extern_stage(system, path, base, options);
        assert(Self::load_core(*old(self), *self, ty, path_key(path@), base));
        r
    }

    /// Asks every cache, then every second-stage system, to drop what nobody
    /// else holds.
    pub fn unload_unused(&mut self) where S: ExternalResourceSystem<V>
        requires
            old(self).wf(),
        ensures
            final(self).wf(),
            Self::evict_post(*old(self), *final(self)),
    {
        self.arenas.unload_unused();
        self.externs.unload_unused();
    }

    /// The per-frame trigger of eviction, run by the owner.
    pub fn advance(&mut self) -> (r: Result<(), ResourceError>) where S: ExternalResourceSystem<V>
        requires
            old(self).wf(),
        ensures
            final(self).wf(),
            r is Ok,
            Self::evict_post(*old(self), *final(self)),
    {
        self.unload_unused();
        Ok(())
    }

    /// Takes the stop signal: every later load fails with `SystemUnavailable`.
    pub fn stop(&mut self)
        requires
            old(self).wf(),
        ensures
            final(self).wf(),
            final(self).is_stopped(),
            final(self).caches() == old(self).caches(),
            final(self).externs() == old(self).externs(),
            final(self).loading() == old(self).loading(),
            old(self).is_stopped() ==> *final(self) == *old(self),
    {
        if !self.stopped {
            self.stopped = true;
        }
    }

    /// Runs one task from the queue; a load hands back the result for its caller.
    /// Once stopped, loads fail with `SystemUnavailable` and every other task
    /// leaves the state as it is.
    pub fn run_task<F: Filesystem, P: ResourceParser<V>>(&mut self, task: Task<S::Options>, fs: &F, parser: &P) -> (r: Option<
        Result<Arc<V>, ResourceError>,
    >) where S: ExternalResourceSystem<V>
        requires
            old(self).wf(),
        ensures
            final(self).wf(),
            task matches Task::Load { ty, path } ==> r matches Some(x) && Self::load_post(
                *old(self),
                *final(self),
                ty,
                path_key(path@),
                x,
            ),
            task matches Task::ExternLoad { ty, system, path, options } ==> r matches Some(x)
                && Self::load_extern_post(*old(self), *final(self), ty, system, path_key(path@), x),
            task is UnloadUnused ==> r is None && Self::evict_post(*old(self), *final(self)),
            task is UnloadUnused && old(self).is_stopped() ==> *final(self) == *old(self),
            task is Stop && old(self).is_stopped() ==> *final(self) == *old(self),
            task is Stop ==> r is None && final(self).is_stopped() && final(self).caches() == old(
                self,
            ).caches(),
    {
        match task {
            Task::Load { ty, path } => {
                let p = path.as_str();
                let r = self.load(ty, p, fs, parser);
                assert(p@ == path@);
                Some(r)
            },
            Task::ExternLoad { ty, system, path, options } => {
                let p = path.as_str();
                let r = self.load_extern(ty, system, p, options, fs, parser);
                assert(p@ == path@);
                Some(r)
            },
            Task::UnloadUnused => {
                if !self.stopped {
                    self.unload_unused();
                }
                None
            },
            Task::Stop => {
                self.stop();
                None
            },
        }
    }
}

} // verus!
