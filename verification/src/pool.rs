//! The generational allocator as a mathematical state, and its two moves.

use crate::ids::Handle;
use vstd::prelude::*;

verus! {

/// What one slot records: the generation it stands at, and whether the
/// entity issued under that generation still lives.
pub struct SlotState {
    pub generation: nat,
    pub alive: bool,
}

/// The state of a generational allocator: its slots in index order, and the
/// stack of indices that wait to be issued again, top last.
pub struct PoolState {
    pub slots: Seq<SlotState>,
    pub dead: Seq<nat>,
}

impl PoolState {
    /// The state of an allocator that has issued nothing yet.
    pub open spec fn fresh() -> PoolState {
        PoolState { slots: Seq::empty(), dead: Seq::empty() }
    }

    /// What every reachable state satisfies: generations are positive,
    /// the stack names existing slots only, and a slot that is not alive
    /// waits on the stack.
    pub open spec fn wf(self) -> bool {
        &&& forall|i: int|
            0 <= i < self.slots.len() ==> (#[trigger] self.slots[i]).generation >= 1
        &&& forall|k: int| 0 <= k < self.dead.len() ==> (#[trigger] self.dead[k]) < self.slots.len()
        &&& forall|i: int|
            0 <= i < self.slots.len() && !(#[trigger] self.slots[i]).alive ==> self.dead.contains(
                i as nat,
            )
    }

    /// A handle verifies when its index names a slot and its generation is
    /// the one the slot stands at.
    pub open spec fn verifies(self, handle: Handle) -> bool {
        &&& handle.index < self.slots.len()
        &&& self.slots[handle.index as int].generation == handle.generation
    }

    /// The handle that the next `create` issues: the slot on top of the
    /// stack under the generation it stands at, or else a new slot under
    /// generation 1.
    pub open spec fn next_handle(self) -> Handle {
        if self.dead.len() > 0 {
            Handle {
                index: self.dead.last(),
                generation: self.slots[self.dead.last() as int].generation,
            }
        } else {
            Handle { index: self.slots.len(), generation: 1 }
        }
    }

    /// The state after `create`: the issued slot is alive, its generation
    /// untouched.
    pub open spec fn create(self) -> PoolState {
        if self.dead.len() > 0 {
            let index = self.dead.last() as int;
            PoolState {
                slots: self.slots.update(
                    index,
                    SlotState { generation: self.slots[index].generation, alive: true },
                ),
                dead: self.dead.drop_last(),
            }
        } else {
            PoolState {
                slots: self.slots.push(SlotState { generation: 1, alive: true }),
                dead: self.dead,
            }
        }
    }

    /// The state after `kill`: unchanged for a handle that does not verify;
    /// otherwise the slot moves on by one generation, is no longer alive,
    /// and its index goes on top of the stack.
    pub open spec fn kill(self, handle: Handle) -> PoolState {
        if self.verifies(handle) {
            let index = handle.index as int;
            PoolState {
                slots: self.slots.update(
                    index,
                    SlotState { generation: self.slots[index].generation + 1, alive: false },
                ),
                dead: self.dead.push(handle.index),
            }
        } else {
            self
        }
    }

    /// The indices of the slots that are alive.
    pub open spec fn living(self) -> Set<usize> {
        Set::new(|i: usize| i < self.slots.len() && self.slots[i as int].alive)
    }

    /// The stack holds each index once at most, and only slots that are
    /// not alive. It holds of every state reached by killing handles that
    /// `create` issued.
    pub open spec fn tight(self) -> bool {
        &&& self.dead.no_duplicates()
        &&& forall|k: int| 0 <= k < self.dead.len() ==> !self.slots[#[trigger] self.dead[k] as int].alive
    }

    /// The state after `n` calls of `create` in a row.
    pub open spec fn create_many(self, n: nat) -> PoolState
        decreases n,
    {
        if n == 0 {
            self
        } else {
            self.create_many((n - 1) as nat).create()
        }
    }
}

/// `create` keeps a state well formed.
pub proof fn law_create_keeps_wf(state: PoolState)
    requires
        state.wf(),
    ensures
        state.create().wf(),
{
    let after = state.create();
    if state.dead.len() > 0 {
        assert forall|i: int|
            0 <= i < after.slots.len() && !(#[trigger] after.slots[i]).alive implies after.dead.contains(
            i as nat,
        ) by {
            let k = choose|k: int| 0 <= k < state.dead.len() && state.dead[k] == i as nat;
            assert(after.dead[k] == i as nat);
        }
    }
}

/// `kill` keeps a state well formed, whatever the handle.
pub proof fn law_kill_keeps_wf(state: PoolState, handle: Handle)
    requires
        state.wf(),
    ensures
        state.kill(handle).wf(),
{
    let after = state.kill(handle);
    if state.verifies(handle) {
        assert(after.dead[after.dead.len() - 1] == handle.index);
        assert forall|i: int|
            0 <= i < after.slots.len() && !(#[trigger] after.slots[i]).alive implies after.dead.contains(
            i as nat,
        ) by {
            if i != handle.index {
                let k = choose|k: int| 0 <= k < state.dead.len() && state.dead[k] == i as nat;
                assert(after.dead[k] == i as nat);
            }
        }
    }
}

/// With no `kill` in between, `n` calls of `create` on a new allocator
/// leave `n` slots, all alive and at generation 1, and an empty stack.
pub proof fn law_fresh_creates_fill_in_order(n: nat)
    ensures
        PoolState::fresh().create_many(n).slots.len() == n,
        PoolState::fresh().create_many(n).dead.len() == 0,
        forall|i: int|
            0 <= i < n ==> #[trigger] PoolState::fresh().create_many(n).slots[i] == (SlotState {
                generation: 1,
                alive: true,
            }),
    decreases n,
{
    if n > 0 {
        law_fresh_creates_fill_in_order((n - 1) as nat);
    }
}

/// With no `kill` in between, the calls of `create` on a new allocator
/// return the indices 0, 1, 2 and so on, each under generation 1.
pub proof fn law_fresh_creates_count_up(k: nat)
    ensures
        PoolState::fresh().create_many(k).next_handle() == (Handle { index: k, generation: 1 }),
{
    law_fresh_creates_fill_in_order(k);
}

/// After `kill`, the handle does not verify.
pub proof fn law_killed_handle_is_dead(state: PoolState, handle: Handle)
    ensures
        !state.kill(handle).verifies(handle),
{
}

/// A second `kill` of the same handle changes nothing.
pub proof fn law_kill_is_idempotent(state: PoolState, handle: Handle)
    ensures
        state.kill(handle).kill(handle) == state.kill(handle),
{
    law_killed_handle_is_dead(state, handle);
}

/// After `kill` of a handle that verifies, the next `create` issues the
/// same index one generation on, and that new handle verifies.
pub proof fn law_killed_slot_comes_back_one_generation_on(state: PoolState, handle: Handle)
    requires
        state.verifies(handle),
    ensures
        state.kill(handle).next_handle() == (Handle {
            index: handle.index,
            generation: handle.generation + 1,
        }),
        state.kill(handle).create().verifies(state.kill(handle).next_handle()),
{
}

impl PoolState {
    /// No slot of `self` is missing from `later`, and none stands at a
    /// lower generation there.
    pub open spec fn no_later_than(self, later: PoolState) -> bool {
        &&& self.slots.len() <= later.slots.len()
        &&& forall|i: int|
            0 <= i < self.slots.len() ==> self.slots[i].generation <= (
            #[trigger] later.slots[i]).generation
    }

    /// The handle names a slot that has moved past the handle's generation.
    pub open spec fn stale(self, handle: Handle) -> bool {
        &&& handle.index < self.slots.len()
        &&& handle.generation < self.slots[handle.index as int].generation
    }
}

/// Neither `create` nor `kill` removes a slot or lowers its generation.
pub proof fn law_generations_never_decrease(state: PoolState, handle: Handle)
    requires
        state.wf(),
    ensures
        state.no_later_than(state.create()),
        state.no_later_than(state.kill(handle)),
{
}

/// A killed handle is stale; a stale handle never verifies, stays stale
/// through every later `create` and `kill`, and is never issued again.
pub proof fn law_generations_never_repeat(state: PoolState, stale: Handle, other: Handle)
    requires
        state.wf(),
    ensures
        state.verifies(stale) ==> state.kill(stale).stale(stale),
        state.stale(stale) ==> !state.verifies(stale),
        state.stale(stale) ==> state.create().stale(stale),
        state.stale(stale) ==> state.kill(other).stale(stale),
        state.stale(stale) ==> state.next_handle() != stale,
{
}

/// A new allocator is well formed and tight.
pub proof fn law_fresh_is_tight()
    ensures
        PoolState::fresh().wf(),
        PoolState::fresh().tight(),
{
}

/// In a tight state the stack holds exactly the slots that are not alive.
pub proof fn law_tight_stack_is_the_dead(state: PoolState, i: int)
    requires
        state.wf(),
        state.tight(),
        0 <= i < state.slots.len(),
    ensures
        state.dead.contains(i as nat) <==> !state.slots[i].alive,
{
}

/// In a tight state `create` issues a slot that is not alive, and leaves
/// a tight state.
pub proof fn law_create_keeps_tight(state: PoolState)
    requires
        state.wf(),
        state.tight(),
    ensures
        state.create().tight(),
        state.next_handle().index < state.slots.len() ==> !state.slots[state.next_handle().index as int].alive,
{
}

/// `kill` leaves a tight state tight when the handle does not verify or
/// its slot is alive, as it is for every handle that `create` issued and
/// that was not killed since.
pub proof fn law_kill_keeps_tight(state: PoolState, handle: Handle)
    requires
        state.wf(),
        state.tight(),
        state.verifies(handle) ==> state.slots[handle.index as int].alive,
    ensures
        state.kill(handle).tight(),
{
}

} // verus!
