use vstd::prelude::*;

verus! {

/// A handle to an entity: the slot it lives in and the version of that slot
/// when it was created. A freed slot gets a new version, so old handles die.
#[derive(Debug, Clone, Copy, PartialEq, Eq, Structural)]
pub struct Entity {
    pub index: usize,
    pub version: u32,
}

struct Slot<C> {
    version: u32,
    alive: bool,
    component: Option<C>,
}

/// Entities with at most one component of type `C` each.
pub struct World<C> {
    slots: Vec<Slot<C>>,
}

impl<C: Copy> World<C> {
    /// Whether `e` names an entity that exists.
    pub closed spec fn live(&self, e: Entity) -> bool {
        &&& e.index < self.slots@.len()
        &&& self.slots@[e.index as int].alive
        &&& self.slots@[e.index as int].version == e.version
    }

    /// The component of `e`, if `e` exists and has one.
    pub closed spec fn component(&self, e: Entity) -> Option<C> {
        if self.live(e) {
            self.slots@[e.index as int].component
        } else {
            None
        }
    }

    /// A dead slot holds no component.
    pub closed spec fn wf(&self) -> bool {
        forall|i: int| 0 <= i < self.slots@.len() && !(#[trigger] self.slots@[i]).alive
            ==> self.slots@[i].component is None
    }

    /// Every other entity keeps its existence and its component.
    pub open spec fn others_kept(pre: Self, post: Self, e: Entity) -> bool {
        forall|x: Entity| x != e ==> (#[trigger] post.live(x) == pre.live(x)) && post.component(x)
            == pre.component(x)
    }

    /// An empty world.
    pub fn new() -> (r: Self)
        ensures
            r.wf(),
            forall|e: Entity| !#[trigger] r.live(e),
    {
        World { slots: Vec::new() }
    }

    /// Creates an entity without components, reusing a freed slot when one
    /// can still take a new version.
    pub fn create(&mut self) -> (e: Entity)
        requires
            old(self).wf(),
        ensures
            final(self).wf(),
            final(self).live(e),
            !old(self).live(e),
            final(self).component(e) is None,
            Self::others_kept(*old(self), *final(self), e),
    {
        let mut i: usize = 0;
        while i < self.slots.len()
            invariant
                *self == *old(self),
                self.wf(),
                i <= self.slots@.len(),
            decreases self.slots@.len() - i,
        {
            if !self.slots[i].alive && self.slots[i].version < u32::MAX {
                let version = self.slots[i].version + 1;
                self.slots.set(i, Slot { version, alive: true, component: None });
                let e = Entity { index: i, version };
                assert forall|x: Entity| x != e implies #[trigger] self.live(x) == old(self).live(x)
                    && self.component(x) == old(self).component(x) by {
                    if x.index != i && x.index < self.slots@.len() {
                        assert(self.slots@[x.index as int] == old(self).slots@[x.index as int]);
                    }
                }
                return e;
            }
            i = i + 1;
        }
        let index = self.slots.len();
        self.slots.push(Slot { version: 0, alive: true, component: None });
        let e = Entity { index, version: 0 };
        assert forall|x: Entity| x != e implies #[trigger] self.live(x) == old(self).live(x)
            && self.component(x) == old(self).component(x) by {
            if x.index < index {
                assert(self.slots@[x.index as int] == old(self).slots@[x.index as int]);
            }
        }
        e
    }

    /// Whether `e` exists.
    pub fn is_alive(&self, e: Entity) -> (r: bool)
        ensures
            r == self.live(e),
    {
        e.index < self.slots.len() && self.slots[e.index].alive && self.slots[e.index].version
            == e.version
    }

    /// The component of `e`.
    pub fn fetch(&self, e: Entity) -> (r: Option<C>)
        ensures
            r == self.component(e),
    {
        if self.is_alive(e) {
            self.slots[e.index].component
        } else {
            None
        }
    }

    /// Whether `e` exists and has a component.
    pub fn has(&self, e: Entity) -> (r: bool)
        ensures
            r == self.component(e) is Some,
    {
        self.fetch(e).is_some()
    }

    /// Gives `e` the component `c`, handing back the one it replaces; an
    /// entity that does not exist is left alone.
    pub fn assign(&mut self, e: Entity, c: C) -> (r: Option<C>)
        requires
            old(self).wf(),
        ensures
            final(self).wf(),
            r == old(self).component(e),
            Self::others_kept(*old(self), *final(self), e),
            final(self).live(e) == old(self).live(e),
            final(self).component(e) == (if old(self).live(e) {
                Some(c)
            } else {
                None::<C>
            }),
    {
        if !self.is_alive(e) {
            return None;
        }
        let previous = self.slots[e.index].component;
        self.slots.set(e.index, Slot { version: e.version, alive: true, component: Some(c) });
        assert forall|x: Entity| x != e implies #[trigger] self.live(x) == old(self).live(x)
            && self.component(x) == old(self).component(x) by {
            if x.index != e.index && x.index < self.slots@.len() {
                assert(self.slots@[x.index as int] == old(self).slots@[x.index as int]);
            }
        }
        previous
    }

    /// Takes the component away from `e`, handing it back.
    pub fn remove(&mut self, e: Entity) -> (r: Option<C>)
        requires
            old(self).wf(),
        ensures
            final(self).wf(),
            r == old(self).component(e),
            Self::others_kept(*old(self), *final(self), e),
            final(self).live(e) == old(self).live(e),
            final(self).component(e) is None,
    {
        if !self.is_alive(e) {
            return None;
        }
        let previous = self.slots[e.index].component;
        self.slots.set(e.index, Slot { version: e.version, alive: true, component: None });
        assert forall|x: Entity| x != e implies #[trigger] self.live(x) == old(self).live(x)
            && self.component(x) == old(self).component(x) by {
            if x.index != e.index && x.index < self.slots@.len() {
                assert(self.slots@[x.index as int] == old(self).slots@[x.index as int]);
            }
        }
        previous
    }

    /// Destroys `e` with its component; tells whether it existed.
    pub fn free(&mut self, e: Entity) -> (r: bool)
        requires
            old(self).wf(),
        ensures
            final(self).wf(),
            r == old(self).live(e),
            !final(self).live(e),
            final(self).component(e) is None,
            Self::others_kept(*old(self), *final(self), e),
    {
        if !self.is_alive(e) {
            return false;
        }
        self.slots.set(e.index, Slot { version: e.version, alive: false, component: None });
        assert forall|x: Entity| x != e implies #[trigger] self.live(x) == old(self).live(x)
            && self.component(x) == old(self).component(x) by {
            if x.index != e.index && x.index < self.slots@.len() {
                assert(self.slots@[x.index as int] == old(self).slots@[x.index as int]);
            }
        }
        true
    }
}

} // verus!
