//! The entity store: component tables, the entity allocator and queries.
//! The systems that run over the store each frame are in `systems`.

use vstd::prelude::*;

pub mod components;
pub mod motion;
pub mod systems;

use crate::game::GameClock;
use crate::input::{Controls, Input, KeyState, Keys, KEY_COUNT};
use components::{mask_has, JumpState, Player, Position, Size, Sprite, Vec3, Velocity, NONE};

verus! {

/// `slot` is the lowest index of `masks` that holds no entity.
pub open spec fn is_first_free(masks: Seq<u64>, slot: int) -> bool {
    &&& 0 <= slot < masks.len()
    &&& masks[slot] == NONE
    &&& forall|j: int| 0 <= j < slot ==> masks[j] != NONE
}

/// Every slot of `masks` holds an entity.
pub open spec fn is_full(masks: Seq<u64>) -> bool {
    forall|j: int| 0 <= j < masks.len() ==> masks[j] != NONE
}

/// The mask a new entity gets: the one asked for, or the empty mask.
pub open spec fn initial_mask(mask: Option<u64>) -> u64 {
    match mask {
        Some(mask) => mask,
        None => NONE,
    }
}

/// The indices of `masks`, in ascending order, whose mask has every component
/// of `mask`.
pub open spec fn matching_slots(masks: Seq<u64>, mask: u64) -> Seq<usize>
    decreases masks.len(),
{
    if masks.len() == 0 {
        Seq::empty()
    } else {
        let before = matching_slots(masks.drop_last(), mask);
        if mask_has(masks.last(), mask) {
            before.push((masks.len() - 1) as usize)
        } else {
            before
        }
    }
}

/// Fixed-capacity entity store: one mask per slot and, beside it, one table per
/// kind of component. An entity is its slot's index.
pub struct World<S> {
    /// The component mask of each slot; `NONE` marks a free slot.
    pub entities: Vec<u64>,
    pub positions: Vec<Position<S>>,
    pub sizes: Vec<Size<S>>,
    pub velocities: Vec<Velocity<S>>,
    pub sprites: Vec<Sprite>,
    pub players: Vec<Player>,
    pub jump_states: Vec<JumpState>,
    pub clock: GameClock,
    pub input: Input,
}

impl<S: Copy> World<S> {
    /// Number of slots.
    pub open spec fn capacity(&self) -> nat {
        self.entities@.len()
    }

    /// Every table has one entry per slot, and the controls name keys of the
    /// key-state table.
    pub open spec fn wf(&self) -> bool {
        &&& self.positions@.len() == self.capacity()
        &&& self.sizes@.len() == self.capacity()
        &&& self.velocities@.len() == self.capacity()
        &&& self.sprites@.len() == self.capacity()
        &&& self.players@.len() == self.capacity()
        &&& self.jump_states@.len() == self.capacity()
        &&& self.input.controls.wf()
    }

    /// Whether slot `idx` has every component of `mask`.
    pub open spec fn slot_has(&self, idx: int, mask: u64) -> bool {
        mask_has(self.entities@[idx], mask)
    }

    /// A store of `capacity` free slots, with no key down and a clock that
    /// starts at `now`. Every coordinate of every position, size and velocity
    /// is `zero`.
    pub fn new(capacity: usize, controls: Controls, now: u64, zero: S) -> (world: World<S>)
        requires
            controls.wf(),
        ensures
            world.wf(),
            world.capacity() == capacity,
            forall|i: int| 0 <= i < capacity ==> world.entities@[i] == NONE,
            forall|i: int| 0 <= i < capacity ==> world.positions@[i] == (Vec3 { x: zero, y: zero, z: zero }),
            forall|i: int| 0 <= i < capacity ==> world.sizes@[i] == (Vec3 { x: zero, y: zero, z: zero }),
            forall|i: int|
                0 <= i < capacity ==> world.velocities@[i] == (Velocity {
                    velocity: Vec3 { x: zero, y: zero, z: zero },
                    acceleration: Vec3 { x: zero, y: zero, z: zero },
                }),
            forall|i: int| 0 <= i < capacity ==> world.sprites@[i] == (Sprite { tex_idx: 0 }),
            forall|i: int|
                0 <= i < capacity ==> world.players@[i] == (Player {
                    state: JumpState::Standing,
                    max_jump_count: 0,
                }),
            forall|i: int| 0 <= i < capacity ==> world.jump_states@[i] == JumpState::Standing,
            world.clock == (GameClock {
                start_time: now,
                program_time: 0,
                last_frame: now,
                delta_time: 0,
            }),
            world.input.controls == controls,
            forall|k: int|
                0 <= k < KEY_COUNT ==> (#[trigger] world.input.keys@[k]) == KeyState::Released,
    {
        let mut entities: Vec<u64> = Vec::new();
        let origin = Vec3 { x: zero, y: zero, z: zero };
        let mut positions: Vec<Position<S>> = Vec::new();
        let mut sizes: Vec<Size<S>> = Vec::new();
        let mut velocities: Vec<Velocity<S>> = Vec::new();
        let mut sprites: Vec<Sprite> = Vec::new();
        let mut players: Vec<Player> = Vec::new();
        let mut jump_states: Vec<JumpState> = Vec::new();
        let mut i: usize = 0;
        while i < capacity
            invariant
                i <= capacity,
                entities@.len() == i,
                origin == (Vec3 { x: zero, y: zero, z: zero }),
                positions@.len() == i,
                sizes@.len() == i,
                velocities@.len() == i,
                sprites@.len() == i,
                players@.len() == i,
                jump_states@.len() == i,
                forall|j: int| 0 <= j < i ==> entities@[j] == NONE,
                forall|j: int| 0 <= j < i ==> positions@[j] == origin,
                forall|j: int| 0 <= j < i ==> sizes@[j] == origin,
                forall|j: int|
                    0 <= j < i ==> velocities@[j] == (Velocity {
                        velocity: origin,
                        acceleration: origin,
                    }),
                forall|j: int| 0 <= j < i ==> sprites@[j] == (Sprite { tex_idx: 0 }),
                forall|j: int|
                    0 <= j < i ==> players@[j] == (Player {
                        state: JumpState::Standing,
                        max_jump_count: 0,
                    }),
                forall|j: int| 0 <= j < i ==> jump_states@[j] == JumpState::Standing,
            decreases capacity - i,
        {
            entities.push(NONE);
            positions.push(origin);
            sizes.push(origin);
            velocities.push(Velocity { velocity: origin, acceleration: origin });
            sprites.push(Sprite::default());
            players.push(Player::default());
            jump_states.push(JumpState::default());
            i += 1;
        }
        World {
            entities,
            positions,
            sizes,
            velocities,
            sprites,
            players,
            jump_states,
            clock: GameClock::new(now),
            input: Input { keys: Keys::new(), controls },
        }
    }

    /// Gives the lowest free slot to a new entity with the components of
    /// `mask`, or tells that the store is full and leaves it as it is.
    pub fn try_new_entity(&mut self, mask: Option<u64>) -> (slot: Option<usize>)
        ensures
            *final(self) == (World { entities: final(self).entities, ..*old(self) }),
            old(self).wf() ==> final(self).wf(),
            slot is None <==> is_full(old(self).entities@),
            match slot {
                Some(idx) => {
                    &&& is_first_free(old(self).entities@, idx as int)
                    &&& final(self).entities@ == old(self).entities@.update(
                        idx as int,
                        initial_mask(mask),
                    )
                },
                None => {
                    &&& is_full(old(self).entities@)
                    &&& final(self).entities@ == old(self).entities@
                },
            },
    {
        let mut idx: usize = 0;
        while idx < self.entities.len()
            invariant
                *self == *old(self),
                idx <= self.entities@.len(),
                forall|j: int| 0 <= j < idx ==> self.entities@[j] != NONE,
            decreases self.entities@.len() - idx,
        {
            if self.entities[idx] == NONE {
                if let Some(mask) = mask {
                    self.entities[idx] = mask;
                }
                assert(self.entities@ =~= old(self).entities@.update(
                    idx as int,
                    initial_mask(mask),
                ));
                return Some(idx);
            }
            idx += 1;
        }
        None
    }

    /// Gives the lowest free slot to a new entity with the components of
    /// `mask` and returns the slot.
    pub fn new_entity(&mut self, mask: Option<u64>) -> (idx: usize)
        requires
            !is_full(old(self).entities@),
        ensures
            *final(self) == (World { entities: final(self).entities, ..*old(self) }),
            old(self).wf() ==> final(self).wf(),
            is_first_free(old(self).entities@, idx as int),
            final(self).entities@ == old(self).entities@.update(idx as int, initial_mask(mask)),
            final(self).slot_has(idx as int, initial_mask(mask)),
    {
        proof {
            let given = initial_mask(mask);
            assert(given & given == given) by (bit_vector);
        }
        self.try_new_entity(mask).expect("no more entities left")
    }

    /// Frees the slot of `entity`. The slot's component values stay as they
    /// are.
    pub fn remove_entity(&mut self, entity: u64)
        requires
            entity < old(self).capacity(),
        ensures
            *final(self) == (World { entities: final(self).entities, ..*old(self) }),
            old(self).wf() ==> final(self).wf(),
            final(self).entities@ == old(self).entities@.update(entity as int, NONE),
            forall|mask: u64|
                mask != 0 && mask != NONE ==> !(#[trigger] final(self).slot_has(entity as int, mask)),
    {
        proof {
            lemma_free_mask_has_no_component();
        }
        let capacity: usize = self.entities.len();
        assert(entity < capacity);
        self.entities[entity as usize] = NONE;
    }

    /// Whether slot `idx` has every component of `mask`.
    pub fn has(&self, idx: usize, mask: u64) -> (present: bool)
        requires
            idx < self.capacity(),
        ensures
            present == self.slot_has(idx as int, mask),
    {
        self.entities[idx] & mask == mask
    }

    /// The slots that have every component of `mask`, in ascending order.
    pub fn for_each(&self, mask: u64) -> (slots: Vec<usize>)
        ensures
            slots@ == matching_slots(self.entities@, mask),
    {
        let mut slots: Vec<usize> = Vec::new();
        let mut idx: usize = 0;
        while idx < self.entities.len()
            invariant
                idx <= self.entities@.len(),
                slots@ == matching_slots(self.entities@.take(idx as int), mask),
            decreases self.entities@.len() - idx,
        {
            proof {
                lemma_matching_slots_step(self.entities@, mask, idx as int);
            }
            if self.entities[idx] & mask == mask {
                slots.push(idx);
            }
            idx += 1;
        }
        assert(self.entities@.take(idx as int) =~= self.entities@);
        slots
    }
}

/// The empty mask has no component: it has no mask but itself and the mask
/// of no bit at all.
pub proof fn lemma_free_mask_has_no_component()
    ensures
        forall|mask: u64| mask != 0 && mask != NONE ==> !(#[trigger] mask_has(NONE, mask)),
{
    assert forall|mask: u64| mask != 0 && mask != NONE implies !(#[trigger] mask_has(
        NONE,
        mask,
    )) by {
        assert(mask != 0 && mask != 1 ==> 1u64 & mask != mask) by (bit_vector);
    }
}

/// A slot that was given the mask `mask` has `mask`, and has every `part` made
/// of bits of `mask` only.
pub proof fn lemma_allocated_slot_has_mask(masks: Seq<u64>, slot: int, mask: u64, part: u64)
    requires
        mask_has(mask, part),
    ensures
        mask_has(mask, mask),
        0 <= slot < masks.len() ==> mask_has(masks.update(slot, mask)[slot], mask),
        0 <= slot < masks.len() ==> mask_has(masks.update(slot, mask)[slot], part),
{
    assert(mask & mask == mask) by (bit_vector);
}

/// A freed slot has no component: it has no mask but the empty mask and the
/// mask of no bit at all.
pub proof fn lemma_freed_slot_has_no_component(masks: Seq<u64>, slot: int, mask: u64)
    requires
        0 <= slot < masks.len(),
        mask != 0,
        mask != NONE,
    ensures
        !mask_has(masks.update(slot, NONE)[slot], mask),
{
    lemma_free_mask_has_no_component();
}

/// Freeing the slot that was given out last leaves the masks of the store as
/// they were before it was given out.
pub proof fn lemma_free_undoes_allocation(masks: Seq<u64>, slot: int, mask: u64)
    requires
        is_first_free(masks, slot),
    ensures
        masks.update(slot, mask).update(slot, NONE) == masks,
{
    assert(masks.update(slot, mask).update(slot, NONE) =~= masks);
}

/// No two slots are the lowest free one.
pub proof fn lemma_first_free_is_unique(masks: Seq<u64>, a: int, b: int)
    requires
        is_first_free(masks, a),
        is_first_free(masks, b),
    ensures
        a == b,
{
}

/// A store has a lowest free slot unless it is full.
pub proof fn lemma_first_free_exists(masks: Seq<u64>)
    ensures
        is_full(masks) <==> !exists|slot: int| is_first_free(masks, slot),
    decreases masks.len(),
{
    if is_full(masks) {
        assert forall|slot: int| !is_first_free(masks, slot) by {}
    } else {
        let init = masks.drop_last();
        if is_full(init) {
            let free = choose|j: int| 0 <= j < masks.len() && masks[j] == NONE;
            assert(free == masks.len() - 1) by {
                if free < masks.len() - 1 {
                    assert(init[free] == masks[free]);
                }
            }
            assert forall|j: int| 0 <= j < free implies masks[j] != NONE by {
                assert(init[j] == masks[j]);
            }
            assert(is_first_free(masks, free));
        } else {
            lemma_first_free_exists(init);
            let slot = choose|slot: int| is_first_free(init, slot);
            assert(masks[slot] == init[slot]);
            assert forall|j: int| 0 <= j < slot implies masks[j] != NONE by {
                assert(init[j] == masks[j]);
            }
            assert(is_first_free(masks, slot));
        }
    }
}

/// When the only free slot of a store is the one that was freed last, that
/// slot is the next one given out.
pub proof fn lemma_freed_slot_is_reused(masks: Seq<u64>, slot: int)
    requires
        0 <= slot < masks.len(),
        forall|j: int| 0 <= j < masks.len() && j != slot ==> masks[j] != NONE,
    ensures
        is_first_free(masks.update(slot, NONE), slot),
        forall|other: int| is_first_free(masks.update(slot, NONE), other) ==> other == slot,
{
}

/// A query yields slots of the store whose masks have the components asked
/// for, in strictly ascending order, and leaves out no such slot.
pub proof fn lemma_matching_slots_selects(masks: Seq<u64>, mask: u64)
    requires
        masks.len() <= usize::MAX,
    ensures
        forall|k: int|
            0 <= k < matching_slots(masks, mask).len() ==> {
                &&& (#[trigger] matching_slots(masks, mask)[k]) < masks.len()
                &&& mask_has(masks[matching_slots(masks, mask)[k] as int], mask)
            },
        forall|a: int, b: int|
            0 <= a < b < matching_slots(masks, mask).len() ==> matching_slots(masks, mask)[a]
                < matching_slots(masks, mask)[b],
        forall|i: int|
            0 <= i < masks.len() && mask_has(#[trigger] masks[i], mask) ==> matching_slots(
                masks,
                mask,
            ).contains(i as usize),
    decreases masks.len(),
{
    if masks.len() > 0 {
        let init = masks.drop_last();
        lemma_matching_slots_selects(init, mask);
        let before = matching_slots(init, mask);
        let all = matching_slots(masks, mask);
        assert forall|i: int| 0 <= i < masks.len() && mask_has(#[trigger] masks[i], mask) implies all.contains(
            i as usize,
        ) by {
            if i < masks.len() - 1 {
                assert(init[i] == masks[i]);
                assert(before.contains(i as usize));
                let k = choose|k: int| 0 <= k < before.len() && before[k] == i as usize;
                assert(all[k] == i as usize);
            } else {
                assert(all[all.len() - 1] == i as usize);
            }
        }
    }
}

/// Looking at one more slot adds that slot to the matching ones if its mask
/// has the components asked for, and changes nothing if not.
pub proof fn lemma_matching_slots_step(masks: Seq<u64>, mask: u64, idx: int)
    requires
        0 <= idx < masks.len(),
    ensures
        matching_slots(masks.take(idx + 1), mask) == if mask_has(masks[idx], mask) {
            matching_slots(masks.take(idx), mask).push(idx as usize)
        } else {
            matching_slots(masks.take(idx), mask)
        },
{
    assert(masks.take(idx + 1).drop_last() =~= masks.take(idx));
}

} // verus!
