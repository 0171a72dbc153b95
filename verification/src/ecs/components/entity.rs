//! Masks of whole kinds of entity, made of the component bits.

use vstd::prelude::*;

verus! {

/// Every component a player entity is created with.
pub const PLAYER: u64 = 126;

/// The components the input system reads and writes: position, velocity,
/// player attributes and jump state.
pub const CONTROLLED: u64 = 106;

/// The components the movement system integrates.
pub const MOVING: u64 = 10;

/// The components a slot needs to be drawn.
pub const RENDERABLE: u64 = 22;

/// The entity masks are the unions of component bits that their names say.
pub proof fn lemma_entity_masks()
    ensures
        PLAYER == super::POSITION | super::SIZE | super::VELOCITY | super::SPRITE | super::PLAYER
            | super::JUMP_STATE,
        CONTROLLED == super::POSITION | super::VELOCITY | super::PLAYER | super::JUMP_STATE,
        MOVING == super::POSITION | super::VELOCITY,
        RENDERABLE == super::POSITION | super::SIZE | super::SPRITE,
{
    assert(126u64 == 2u64 | 4u64 | 8u64 | 16u64 | 32u64 | 64u64) by (bit_vector);
    assert(106u64 == 2u64 | 8u64 | 32u64 | 64u64) by (bit_vector);
    assert(10u64 == 2u64 | 8u64) by (bit_vector);
    assert(22u64 == 2u64 | 4u64 | 16u64) by (bit_vector);
}

} // verus!
