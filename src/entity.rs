use vstd::prelude::*;

verus! {

/// A generational handle to a node of the UI tree.
#[derive(Clone, Copy, Debug, PartialEq, Eq, Hash, Structural)]
pub struct Entity {
    pub index: u32,
    pub generation: u32,
}

impl Entity {
    pub fn new(index: u32, generation: u32) -> (r: Entity)
        ensures
            r.index == index,
            r.generation == generation,
    {
        Entity { index, generation }
    }

    /// The permanent root entity.
    pub fn root() -> (r: Entity)
        ensures
            r.index == 0,
            r.generation == 0,
    {
        Entity { index: 0, generation: 0 }
    }
}

/// The accessibility ids (index plus one) of the live slots of `alive`, in
/// index order.
pub open spec fn live_ids(alive: Seq<bool>) -> Seq<u64>
    decreases alive.len(),
{
    if alive.len() == 0 {
        Seq::empty()
    } else if alive.last() {
        live_ids(alive.drop_last()).push(alive.len() as u64)
    } else {
        live_ids(alive.drop_last())
    }
}

/// Why a handle could not be used.
#[derive(Clone, Copy, Debug, PartialEq, Eq, Structural)]
pub enum EntityError {
    /// The handle's node was destroyed, or never existed.
    StaleHandle,
    /// The root is permanent.
    RootIsPermanent,
}

/// The slots of the UI tree's nodes. Each slot carries a generation that is
/// bumped when its node is destroyed, so older handles to it stop
/// resolving. A slot whose generation cannot grow any more is retired.
pub struct EntityArena {
    pub generations: Vec<u32>,
    pub alive: Vec<bool>,
    /// Every handle that was ever destroyed.
    pub destroyed: Ghost<Set<Entity>>,
}

impl EntityArena {
    pub open spec fn is_live(&self, e: Entity) -> bool {
        &&& (e.index as int) < self.generations@.len()
        &&& self.alive@[e.index as int]
        &&& self.generations@[e.index as int] == e.generation
    }

    pub open spec fn wf(&self) -> bool {
        &&& self.generations@.len() == self.alive@.len()
        &&& self.generations@.len() >= 1
        &&& self.generations@.len() <= u32::MAX as int + 1
        &&& self.alive@[0]
        &&& self.generations@[0] == 0
        &&& forall|e: Entity| #[trigger]
            self.destroyed@.contains(e) ==> {
                &&& (e.index as int) < self.generations@.len()
                &&& e.index != 0
                &&& (e.generation < self.generations@[e.index as int] || (e.generation
                    == self.generations@[e.index as int] == u32::MAX && !self.alive@[
                    e.index as int]))
            }
    }

    /// An arena that holds the root alone.
    pub fn new() -> (r: EntityArena)
        ensures
            r.wf(),
            r.generations@.len() == 1,
            r.is_live(Entity { index: 0, generation: 0 }),
            r.destroyed@ == Set::<Entity>::empty(),
    {
        EntityArena { generations: vec![0u32], alive: vec![true], destroyed: Ghost(Set::empty()) }
    }

    pub fn is_alive(&self, e: Entity) -> (r: bool)
        requires
            self.wf(),
        ensures
            r == self.is_live(e),
    {
        let i = e.index as usize;
        i < self.generations.len() && self.alive[i] && self.generations[i] == e.generation
    }

    /// The accessibility ids of the live nodes, root first.
    pub fn live_node_ids(&self) -> (r: Vec<u64>)
        requires
            self.wf(),
        ensures
            r@ == live_ids(self.alive@),
    {
        let mut r: Vec<u64> = Vec::new();
        let mut i: usize = 0;
        while i < self.alive.len()
            invariant
                0 <= i <= self.alive@.len(),
                self.alive@.len() <= u32::MAX as int + 1,
                r@ == live_ids(self.alive@.take(i as int)),
            decreases self.alive@.len() - i,
        {
            assert(self.alive@.take(i + 1).drop_last() =~= self.alive@.take(i as int));
            if self.alive[i] {
                r.push(i as u64 + 1);
            }
            i = i + 1;
        }
        assert(self.alive@.take(i as int) =~= self.alive@);
        r
    }

    /// Mounts a new node: reuses the first free slot that is not retired,
    /// else appends one. `None` when every index is taken.
    pub fn create(&mut self) -> (r: Option<Entity>)
        requires
            old(self).wf(),
        ensures
            final(self).wf(),
            final(self).destroyed == old(self).destroyed,
            r matches Some(e) ==> final(self).is_live(e) && !old(self).is_live(e)
                && !old(self).destroyed@.contains(e),
            r matches Some(e) ==> forall|x: Entity|
                x != e ==> (#[trigger] final(self).is_live(x) == old(self).is_live(x)),
            r is None ==> *final(self) == *old(self),
            r is None ==> old(self).generations@.len() == u32::MAX as int + 1,
    {
        let mut i: usize = 1;
        while i < self.alive.len()
            invariant
                1 <= i <= self.alive@.len(),
                self.wf(),
                *self == *old(self),
                forall|j: int|
                    1 <= j < i ==> self.alive@[j] || self.generations@[j] == u32::MAX,
            decreases self.alive@.len() - i,
        {
            if !self.alive[i] && self.generations[i] < u32::MAX {
                let e = Entity { index: i as u32, generation: self.generations[i] };
                self.alive.set(i, true);
                assert forall|x: Entity| #[trigger]
                    self.destroyed@.contains(x) implies x != e by {}
                return Some(e);
            }
            i = i + 1;
        }
        if self.generations.len() > u32::MAX as usize {
            return None;
        }
        let e = Entity { index: self.generations.len() as u32, generation: 0 };
        self.generations.push(0);
        self.alive.push(true);
        Some(e)
    }

    /// Unmounts a node: its handle, and every copy of it, stops resolving.
    pub fn destroy(&mut self, e: Entity) -> (r: Result<(), EntityError>)
        requires
            old(self).wf(),
        ensures
            final(self).wf(),
            r == if e.index == 0 && e.generation == 0 {
                Err::<(), EntityError>(EntityError::RootIsPermanent)
            } else if !old(self).is_live(e) {
                Err(EntityError::StaleHandle)
            } else {
                Ok(())
            },
            r is Err ==> *final(self) == *old(self),
            r is Ok ==> !final(self).is_live(e) && final(self).destroyed@ == old(
                self,
            ).destroyed@.insert(e),
            r is Ok ==> forall|x: Entity|
                x != e ==> (#[trigger] final(self).is_live(x) == old(self).is_live(x)),
    {
        if e.index == 0 && e.generation == 0 {
            return Err(EntityError::RootIsPermanent);
        }
        if !self.is_alive(e) {
            return Err(EntityError::StaleHandle);
        }
        let i = e.index as usize;
        self.alive.set(i, false);
        if self.generations[i] < u32::MAX {
            self.generations.set(i, self.generations[i] + 1);
        }
        self.destroyed = Ghost(self.destroyed@.insert(e));
        Ok(())
    }
}

/// A destroyed handle never resolves again, however the arena changes
/// afterwards through its own operations.
pub proof fn lemma_destroyed_never_live(a: &EntityArena, e: Entity)
    requires
        a.wf(),
        a.destroyed@.contains(e),
    ensures
        !a.is_live(e),
{
}

} // verus!
