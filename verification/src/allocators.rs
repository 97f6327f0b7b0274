//! Slot allocators, and the dense storage that permanent ids index.

use crate::bits::{members, IndexSet};
use crate::ids::{GenId, Generation, Id, Valid};
use crate::pool::{PoolState, SlotState};
use std::marker::PhantomData;
use vstd::prelude::*;

verus! {

/// Issues permanent ids: each call hands out the next index, and no index
/// is ever taken back.
#[derive(Debug)]
pub struct FixedAllocator<T> {
    next_index: usize,
    marker: PhantomData<T>,
}

impl<T> FixedAllocator<T> {
    /// The number of ids issued so far.
    pub closed spec fn view(&self) -> nat {
        self.next_index as nat
    }

    /// Issues the next permanent id. Its index is the number of ids issued
    /// before it.
    pub fn create(&mut self) -> (id: Id<T>)
        requires
            old(self)@ < usize::MAX,
        ensures
            id@ == old(self)@,
            final(self)@ == old(self)@ + 1,
    {
        let id = Id::new(self.next_index);
        self.next_index += 1;
        id
    }
}

impl<T> Clone for FixedAllocator<T> {
    fn clone(&self) -> (copy: Self)
        ensures
            copy@ == self@,
    {
        FixedAllocator { next_index: self.next_index, marker: PhantomData }
    }
}

impl<T> Default for FixedAllocator<T> {
    fn default() -> (allocator: Self)
        ensures
            allocator@ == 0,
    {
        FixedAllocator { next_index: 0, marker: PhantomData }
    }
}

/// Issues transient ids. A killed slot is issued again under its next
/// generation, so that handles of the entity that lived there before no
/// longer verify.
#[derive(Debug)]
pub struct GenAllocator<T> {
    ids: Vec<Valid<T>>,
    live: Vec<bool>,
    dead: Vec<usize>,
    living: IndexSet,
}

impl<T> GenAllocator<T> {
    /// The allocator's state: each slot's generation and liveness, and the
    /// stack of indices to issue again.
    pub closed spec fn view(&self) -> PoolState {
        PoolState {
            slots: Seq::new(
                self.ids@.len(),
                |i: int| SlotState { generation: self.ids@[i]@.generation, alive: self.live@[i] },
            ),
            dead: self.dead@.map_values(|i: usize| i as nat),
        }
    }

    /// The representation is sound: the state is well formed, each slot
    /// records its own index, and the liveness cache holds exactly the
    /// indices of the slots that are alive.
    pub closed spec fn wf(&self) -> bool {
        &&& self.ids@.len() == self.live@.len()
        &&& forall|i: int| 0 <= i < self.ids@.len() ==> (#[trigger] self.ids@[i])@.index == i
        &&& self@.wf()
        &&& members(self.living) == self@.living()
    }

    /// The indices that the liveness cache holds.
    pub closed spec fn cached(&self) -> Set<usize> {
        members(self.living)
    }

    /// The liveness cache of a sound allocator mirrors the slots: it holds
    /// the index of a slot exactly when the slot is alive. Since `create`
    /// and `kill` leave the allocator sound, it does so after every call.
    pub proof fn law_cache_mirrors_slots(&self)
        requires
            self.wf(),
        ensures
            self.cached() == self@.living(),
            forall|i: usize|
                self.cached().contains(i) <==> i < self@.slots.len() && self@.slots[i as int].alive,
    {
    }

    pub fn new() -> (allocator: Self)
        ensures
            allocator.wf(),
            allocator@ == PoolState::fresh(),
    {
        let allocator = GenAllocator {
            ids: Vec::new(),
            live: Vec::new(),
            dead: Vec::new(),
            living: IndexSet::new(),
        };
        assert(allocator@.slots =~= Seq::empty());
        assert(allocator@.dead =~= Seq::empty());
        assert(allocator@.living() =~= Set::<usize>::empty());
        allocator
    }

    /// The slot's own record where the handle verifies: its index names a
    /// slot, and its generation is the one the slot stands at.
    pub fn verify(&self, id: GenId<T>) -> (found: Option<&Valid<T>>)
        requires
            self.wf(),
        ensures
            found is Some <==> self@.verifies(id@),
            found matches Some(valid) ==> valid@ == id@,
    {
        let index = id.id.index;
        if index < self.ids.len() {
            let current = &self.ids[index];
            if id == current.id {
                return Some(current);
            }
        }
        None
    }

    /// Whether the handle verifies.
    pub fn is_alive(&self, id: GenId<T>) -> (alive: bool)
        requires
            self.wf(),
        ensures
            alive == self@.verifies(id@),
    {
        let index = id.id.index;
        if index < self.ids.len() {
            self.ids[index].id == id
        } else {
            false
        }
    }

    /// Issues a handle: the slot that was killed last, under the
    /// generation it stands at, or a new slot under the first generation
    /// where no killed slot waits.
    pub fn create(&mut self) -> (handle: Valid<T>)
        requires
            old(self).wf(),
            old(self)@.dead.len() == 0 ==> old(self)@.slots.len() < usize::MAX,
        ensures
            final(self).wf(),
            final(self)@ == old(self)@.create(),
            handle@ == old(self)@.next_handle(),
    {
        let ghost before = self@;
        if let Some(index) = self.dead.pop() {
            assert(before.dead[before.dead.len() - 1] == index);
            let gen = self.ids[index].id.gen;
            assert(index < self.ids.len() <= usize::MAX);
            self.live[index] = true;
            self.living.insert(index);
            proof {
                assert(self@.slots =~= before.create().slots);
                assert(self@.dead =~= before.create().dead);
                assert(self@.living() =~= before.living().insert(index));
                assert forall|i: int|
                    0 <= i < self@.slots.len() && !(#[trigger] self@.slots[i]).alive implies self@.dead.contains(
                    i as nat,
                ) by {
                    let k = choose|k: int| 0 <= k < before.dead.len() && before.dead[k] == i as nat;
                    assert(self@.dead[k] == i as nat);
                }
            }
            Valid::new(GenId::new(index, gen))
        } else {
            let index = self.ids.len();
            let gen = Generation::default();
            self.ids.push(Valid::new(GenId::new(index, gen)));
            self.live.push(true);
            self.living.insert(index);
            proof {
                assert(self@.slots =~= before.create().slots);
                assert(self@.living() =~= before.living().insert(index));
            }
            Valid::new(GenId::new(index, gen))
        }
    }

    /// Ends the entity behind a handle that verifies: its slot moves on by
    /// one generation, is no longer alive, and goes on top of the stack.
    /// A handle that does not verify changes nothing.
    pub fn kill(&mut self, id: GenId<T>)
        requires
            old(self).wf(),
            old(self)@.verifies(id@) ==> id@.generation < u32::MAX,
        ensures
            final(self).wf(),
            final(self)@ == old(self)@.kill(id@),
    {
        let ghost before = self@;
        if self.is_alive(id) {
            let index = id.id.index;
            let next = self.ids[index].id.gen.next();
            self.ids[index] = Valid::new(GenId::new(index, next));
            self.live[index] = false;
            self.dead.push(index);
            self.living.remove(index);
            proof {
                assert(self@.slots =~= before.kill(id@).slots);
                assert(self@.dead =~= before.kill(id@).dead);
                assert(self@.living() =~= before.living().remove(index));
                assert(self@.dead[self@.dead.len() - 1] == index);
                assert forall|i: int|
                    0 <= i < self@.slots.len() && !(#[trigger] self@.slots[i]).alive implies self@.dead.contains(
                    i as nat,
                ) by {
                    if i != index {
                        let k = choose|k: int|
                            0 <= k < before.dead.len() && before.dead[k] == i as nat;
                        assert(self@.dead[k] == i as nat);
                    }
                }
            }
        }
    }

    /// Whether the liveness cache holds `index`, which is to say whether
    /// the slot at `index` is alive.
    pub fn is_living(&self, index: usize) -> (living: bool)
        requires
            self.wf(),
        ensures
            living == self.cached().contains(index),
            living == (index < self@.slots.len() && self@.slots[index as int].alive),
    {
        self.living.contains(index)
    }
}

impl<T> Clone for GenAllocator<T> {
    fn clone(&self) -> (copy: Self)
        ensures
            copy@ == self@,
            self.wf() ==> copy.wf(),
    {
        let mut ids: Vec<Valid<T>> = Vec::new();
        let mut i: usize = 0;
        while i < self.ids.len()
            invariant
                i <= self.ids@.len(),
                ids@.len() == i,
                forall|j: int| 0 <= j < i ==> (#[trigger] ids@[j])@ == self.ids@[j]@,
            decreases self.ids@.len() - i,
        {
            ids.push(Valid::new(self.ids[i].id));
            i += 1;
        }
        let copy = GenAllocator {
            ids,
            live: self.live.clone(),
            dead: self.dead.clone(),
            living: self.living.duplicate(),
        };
        proof {
            assert(copy@.slots =~= self@.slots);
        }
        copy
    }
}

impl<T> Default for GenAllocator<T> {
    fn default() -> (allocator: Self)
        ensures
            allocator.wf(),
            allocator@ == PoolState::fresh(),
    {
        GenAllocator::new()
    }
}

/// One value per permanent id, stored densely in the order of the indices.
#[derive(Debug)]
pub struct Component<ID, T> {
    pub values: Vec<T>,
    pub(crate) marker: PhantomData<ID>,
}

impl<ID, T> Component<ID, T> {
    /// The stored values, by index.
    pub open(crate) spec fn view(&self) -> Seq<T> {
        self.values@
    }

    pub fn new() -> (component: Self)
        ensures
            component@ == Seq::<T>::empty(),
    {
        Component { values: Vec::new(), marker: PhantomData }
    }

    /// Stores `value` for `id`: in place where the id already has a value,
    /// at the end where the id is the next one. An id further out has no
    /// place to go.
    pub fn insert(&mut self, id: Id<ID>, value: T)
        requires
            id@ <= old(self)@.len(),
        ensures
            id@ < old(self)@.len() ==> final(self)@ == old(self)@.update(id@ as int, value),
            id@ == old(self)@.len() ==> final(self)@ == old(self)@.push(value),
    {
        let index = id.index;
        if index < self.values.len() {
            self.values[index] = value;
        } else if index == self.values.len() {
            self.values.push(value);
        } else {
            unreached()
        }
    }

    /// The value stored for `id`.
    pub fn get(&self, id: Id<ID>) -> (value: &T)
        requires
            id@ < self@.len(),
        ensures
            *value == self@[id@ as int],
    {
        &self.values[id.index]
    }

    /// The value stored for `id`, open to change.
    pub fn get_mut(&mut self, id: Id<ID>) -> (value: &mut T)
        requires
            id@ < old(self)@.len(),
        ensures
            *value == old(self)@[id@ as int],
            final(self)@ == old(self)@.update(id@ as int, *final(value)),
    {
        &mut self.values[id.index]
    }
}

impl<ID, T: Clone> Clone for Component<ID, T> {
    fn clone(&self) -> (copy: Self)
        ensures
            copy@.len() == self@.len(),
            forall|i: int| 0 <= i < self@.len() ==> cloned::<T>(#[trigger] self@[i], copy@[i]),
    {
        Component { values: self.values.clone(), marker: PhantomData }
    }
}

impl<ID, T> vstd::std_specs::core::IndexSpecImpl<Id<ID>> for Component<ID, T> {
    /// Indexing asks for an id that has a value.
    open spec fn index_req(&self, index: &Id<ID>) -> bool {
        index@ < self@.len()
    }
}

impl<ID, T> std::ops::Index<Id<ID>> for Component<ID, T> {
    type Output = T;

    fn index(&self, index: Id<ID>) -> (value: &T)
        ensures
            *value == self@[index@ as int],
    {
        self.get(index)
    }
}

impl<ID, T> Default for Component<ID, T> {
    fn default() -> (component: Self)
        ensures
            component@ == Seq::<T>::empty(),
    {
        Component { values: Vec::new(), marker: PhantomData }
    }
}

} // verus!
