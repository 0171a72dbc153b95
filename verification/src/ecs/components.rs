//! Component bits and component values.

use vstd::prelude::*;

pub mod entity;

verus! {

/// Mask of a slot that holds no entity. It is a bit of its own, so a free slot
/// differs from an entity that has no component.
pub const NONE: u64 = 1;

/// The slot's entry in the position table is in use.
pub const POSITION: u64 = 2;

/// The slot's entry in the size table is in use.
pub const SIZE: u64 = 4;

/// The slot's entry in the velocity table is in use.
pub const VELOCITY: u64 = 8;

/// The slot's entry in the sprite table is in use.
pub const SPRITE: u64 = 16;

/// The slot's entry in the table of player attributes is in use.
pub const PLAYER: u64 = 32;

/// The slot's entry in the jump-state table is in use.
pub const JUMP_STATE: u64 = 64;

/// Whether a slot whose mask is `slot_mask` has every component of `mask`.
pub open spec fn mask_has(slot_mask: u64, mask: u64) -> bool {
    slot_mask & mask == mask
}

/// Three coordinates. `S` is the number type of the game's space; the store
/// keeps and copies such numbers and leaves their arithmetic to the caller.
#[derive(Debug, PartialEq)]
pub struct Vec3<S> {
    pub x: S,
    pub y: S,
    pub z: S,
}

impl<S: Copy> Copy for Vec3<S> {

}

impl<S: Copy> Clone for Vec3<S> {
    fn clone(&self) -> (copy: Self)
        ensures
            copy == *self,
    {
        *self
    }
}

/// Where an entity is.
pub type Position<S> = Vec3<S>;

/// How large an entity is drawn.
pub type Size<S> = Vec3<S>;

/// How an entity moves. `acceleration` holds the entity's speeds: what is
/// added to `velocity` in every movement step, the speed of a jump (in `y`) and
/// the speed at which the direction keys move the entity.
#[derive(Debug, PartialEq)]
pub struct Velocity<S> {
    pub velocity: Vec3<S>,
    pub acceleration: Vec3<S>,
}

impl<S: Copy> Copy for Velocity<S> {

}

impl<S: Copy> Clone for Velocity<S> {
    fn clone(&self) -> (copy: Self)
        ensures
            copy == *self,
    {
        *self
    }
}

/// Names the texture an entity is drawn with, by its place in the texture list.
#[derive(Copy, Clone, Debug, PartialEq, Eq, Structural)]
pub struct Sprite {
    pub tex_idx: usize,
}

impl Default for Sprite {
    fn default() -> (sprite: Sprite)
        ensures
            sprite.tex_idx == 0,
    {
        Sprite { tex_idx: 0 }
    }
}

/// Whether an entity stands or is in the air, and after how many jumps.
#[derive(Copy, Clone, Debug, PartialEq, Eq, Structural)]
pub enum JumpState {
    Standing,
    /// In the air after this many jumps.
    Jumping(u8),
}

impl Default for JumpState {
    fn default() -> (state: JumpState)
        ensures
            state == JumpState::Standing,
    {
        JumpState::Standing
    }
}

impl JumpState {
    /// Jumps made since the entity last stood.
    pub open spec fn count(self) -> int {
        match self {
            JumpState::Standing => 0,
            JumpState::Jumping(count) => count as int,
        }
    }

    /// Whether a press of the jump key takes effect in this state.
    pub open spec fn accepts_jump(self, max_jump_count: u8) -> bool {
        match self {
            JumpState::Standing => true,
            JumpState::Jumping(count) => count < max_jump_count,
        }
    }

    /// The state after one press of the jump key.
    pub open spec fn after_jump(self, max_jump_count: u8) -> JumpState {
        match self {
            JumpState::Standing => JumpState::Jumping(1),
            JumpState::Jumping(count) => if count < max_jump_count {
                JumpState::Jumping((count + 1) as u8)
            } else {
                self
            },
        }
    }

    /// The state after `presses` presses of the jump key in a row.
    pub open spec fn after_jumps(self, max_jump_count: u8, presses: nat) -> JumpState
        decreases presses,
    {
        if presses == 0 {
            self
        } else {
            self.after_jumps(max_jump_count, (presses - 1) as nat).after_jump(max_jump_count)
        }
    }

    /// Takes one press of the jump key. Returns whether the press took effect,
    /// in which case the caller sets the entity's vertical velocity to its jump
    /// speed.
    pub fn jump(&mut self, max_jump_count: u8) -> (applied: bool)
        ensures
            applied == old(self).accepts_jump(max_jump_count),
            *final(self) == old(self).after_jump(max_jump_count),
            applied <==> *final(self) != *old(self),
    {
        match *self {
            JumpState::Standing => {
                *self = JumpState::Jumping(1);
                true
            },
            JumpState::Jumping(count) => {
                if count < max_jump_count {
                    *self = JumpState::Jumping(count + 1);
                    true
                } else {
                    false
                }
            },
        }
    }
}

/// A press of the jump key never takes the count past the cap: from a state
/// within the cap the next state is within it too, and a press at the cap
/// changes nothing.
pub proof fn lemma_jump_respects_cap(state: JumpState, max_jump_count: u8)
    requires
        max_jump_count >= 1,
        state.count() <= max_jump_count,
    ensures
        1 <= state.after_jump(max_jump_count).count() <= max_jump_count,
        state.count() == max_jump_count ==> state.after_jump(max_jump_count) == state,
        state.count() < max_jump_count ==> state.after_jump(max_jump_count).count()
            == state.count() + 1,
{
}

/// Pressing jump `presses` times from `Standing` leaves the entity in the air
/// after as many jumps as were pressed, but no more than the cap allows.
pub proof fn lemma_jumps_from_standing(max_jump_count: u8, presses: nat)
    requires
        max_jump_count >= 1,
        presses >= 1,
    ensures
        JumpState::Standing.after_jumps(max_jump_count, presses) == JumpState::Jumping(
            if presses <= max_jump_count {
                presses as u8
            } else {
                max_jump_count
            },
        ),
    decreases presses,
{
    reveal_with_fuel(JumpState::after_jumps, 2);
    if presses > 1 {
        lemma_jumps_from_standing(max_jump_count, (presses - 1) as nat);
    }
}

/// What the game knows of a player besides where it is.
#[derive(Copy, Clone, Debug, PartialEq, Eq, Structural)]
pub struct Player {
    pub state: JumpState,
    /// How many jumps may follow each other before the player stands again.
    pub max_jump_count: u8,
}

impl Default for Player {
    fn default() -> (player: Player)
        ensures
            player.state == JumpState::Standing,
            player.max_jump_count == 0,
    {
        Player { state: JumpState::Standing, max_jump_count: 0 }
    }
}

} // verus!

