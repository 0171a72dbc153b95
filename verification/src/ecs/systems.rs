//! The systems that run over the store each frame, in this order: the clock
//! ticks, the input system steers the controlled entities, the movement system
//! integrates velocities and positions, and render submission lists what is to
//! be drawn.

use vstd::prelude::*;

use super::components::entity;
use super::components::{JumpState, Position, Vec3, Velocity};
use super::motion::{halves_to, nudge, nudged, recenters, sum, sums_to};
use super::{lemma_matching_slots_step, matching_slots, World};
use crate::input::KeyState;

verus! {

/// One textured quad to draw for the entity in `slot`, with the texture at
/// `tex_idx` of the texture list. The quad's model transform is made of three
/// steps, the last of which is applied to the quad first: a translation by
/// `position`, a translation by `recenter`, and a scaling by `scale`.
#[derive(Debug, PartialEq)]
pub struct DrawCommand<S> {
    pub slot: usize,
    pub position: Position<S>,
    /// Half the entity's size along `x` and `y`, and no depth.
    pub recenter: Vec3<S>,
    /// Half the entity's size.
    pub scale: Vec3<S>,
    pub tex_idx: usize,
}

impl<S: Copy> Copy for DrawCommand<S> {

}

impl<S: Copy> Clone for DrawCommand<S> {
    fn clone(&self) -> (copy: Self)
        ensures
            copy == *self,
    {
        *self
    }
}

/// Why a frame cannot be drawn.
#[derive(Copy, Clone, Debug, PartialEq, Eq, Structural)]
pub enum RenderError {
    /// The sprite of the entity in `slot` names a texture that the texture
    /// list does not hold.
    MissingTexture { slot: usize, tex_idx: usize },
}

impl<S: Copy> World<S> {
    /// Whether the key with code `key` is held.
    pub open spec fn key_down(&self, key: usize) -> bool {
        self.input.keys@[key as int].down()
    }

    /// Whether the input system makes the entity in `slot` jump: it is
    /// controlled, the jump key is held, and its jump state accepts the press.
    pub open spec fn jumps(&self, slot: int) -> bool {
        &&& self.slot_has(slot, entity::CONTROLLED)
        &&& self.key_down(self.input.controls.jump)
        &&& self.jump_states@[slot].accepts_jump(self.players@[slot].max_jump_count)
    }

    /// The velocity of `slot` after the input system has run: where the
    /// entity jumps, its vertical velocity is its jump speed; nothing else
    /// changes.
    pub open spec fn velocity_after_input(&self, slot: int) -> Velocity<S> {
        let before = self.velocities@[slot];
        if self.jumps(slot) {
            Velocity {
                velocity: Vec3 {
                    x: before.velocity.x,
                    y: before.acceleration.y,
                    z: before.velocity.z,
                },
                acceleration: before.acceleration,
            }
        } else {
            before
        }
    }

    /// `after` is the position of `slot` after the input system has run with
    /// the frame's delta time `dt`. A controlled entity moves up and then
    /// down by its vertical speed times `dt`, and left and then right by its
    /// horizontal speed times `dt`, each while that direction's key is held.
    /// Any other entity stays where it is.
    pub open spec fn steered<Add: Fn(S, S) -> S, Sub: Fn(S, S) -> S, Mul: Fn(S, S) -> S>(
        &self,
        slot: int,
        dt: S,
        plus: Add,
        minus: Sub,
        times: Mul,
        after: Position<S>,
    ) -> bool {
        let before = self.positions@[slot];
        let speed = self.velocities@[slot].acceleration;
        let controls = self.input.controls;
        if self.slot_has(slot, entity::CONTROLLED) {
            &&& after.z == before.z
            &&& exists|mid: S|
                nudged(plus, times, dt, speed.y, self.key_down(controls.up), before.y, mid)
                    && nudged(minus, times, dt, speed.y, self.key_down(controls.down), mid, after.y)
            &&& exists|mid: S|
                nudged(minus, times, dt, speed.x, self.key_down(controls.left), before.x, mid)
                    && nudged(plus, times, dt, speed.x, self.key_down(controls.right), mid, after.x)
        } else {
            after == before
        }
    }

    /// `velocity` and `position` are those of `slot` after one movement step:
    /// for a moving entity, its velocity plus its acceleration, and its
    /// position plus that new velocity; for any other entity, what they were.
    pub open spec fn moved<Add: Fn(S, S) -> S>(
        &self,
        slot: int,
        plus: Add,
        velocity: Velocity<S>,
        position: Position<S>,
    ) -> bool {
        let before = self.velocities@[slot];
        if self.slot_has(slot, entity::MOVING) {
            &&& velocity.acceleration == before.acceleration
            &&& sums_to(plus, before.velocity, before.acceleration, velocity.velocity)
            &&& sums_to(plus, self.positions@[slot], velocity.velocity, position)
        } else {
            velocity == before && position == self.positions@[slot]
        }
    }

    /// The jump state of `slot` after the input system has run: one press
    /// further for a controlled entity while the jump key is held, unchanged
    /// otherwise.
    pub open spec fn jump_state_after_input(&self, slot: int) -> JumpState {
        if self.slot_has(slot, entity::CONTROLLED) && self.key_down(self.input.controls.jump) {
            self.jump_states@[slot].after_jump(self.players@[slot].max_jump_count)
        } else {
            self.jump_states@[slot]
        }
    }

    /// `draw` is the draw command for the renderable entity in `slot`: the
    /// quad is placed at the entity's position, moved by half the entity's
    /// size so that the position is its corner, and scaled to half that size.
    pub open spec fn draws<Half: Fn(S) -> S>(
        &self,
        slot: usize,
        halve: Half,
        zero: S,
        draw: DrawCommand<S>,
    ) -> bool {
        &&& draw.slot == slot
        &&& draw.position == self.positions@[slot as int]
        &&& recenters(halve, zero, self.sizes@[slot as int], draw.recenter)
        &&& halves_to(halve, self.sizes@[slot as int], draw.scale)
        &&& draw.tex_idx == self.sprites@[slot as int].tex_idx
    }

    /// Slot `slot` is to be drawn, but a list of `texture_count` textures does
    /// not hold its texture.
    pub open spec fn texture_missing(&self, slot: int, texture_count: usize) -> bool {
        self.slot_has(slot, entity::RENDERABLE) && self.sprites@[slot].tex_idx >= texture_count
    }

    /// Begins a frame at `now`, in microseconds of the clock that the store
    /// was made with.
    pub fn update_clocks(&mut self, now: u64)
        ensures
            *final(self) == (World { clock: final(self).clock, ..*old(self) }),
            old(self).wf() ==> final(self).wf(),
            final(self).clock == old(self).clock.ticked(now),
    {
        self.clock.update(now);
    }

    /// Whether the mouse grab is to be toggled in this frame: its key went
    /// down just now.
    pub fn update(&self) -> (toggle_mouse_grab: bool)
        requires
            self.wf(),
        ensures
            toggle_mouse_grab == (self.input.keys@[self.input.controls.mouse_grab as int]
                == KeyState::JustPressed),
    {
        self.input.keys.is_just_pressed(self.input.controls.mouse_grab)
    }

    /// The input system. For every controlled entity it takes the held keys:
    /// the jump key moves the jump state one press further and, where the
    /// press is accepted, sets the vertical velocity to the entity's jump
    /// speed; the direction keys move the position by the entity's speed times
    /// `dt`, the frame's delta time. The arithmetic is the caller's: `plus`,
    /// `minus` and `times`.
    pub fn input<Add: Fn(S, S) -> S, Sub: Fn(S, S) -> S, Mul: Fn(S, S) -> S>(
        world: &mut World<S>,
        dt: S,
        plus: Add,
        minus: Sub,
        times: Mul,
    )
        requires
            old(world).wf(),
            forall|p: S, q: S| plus.requires((p, q)),
            forall|p: S, q: S| minus.requires((p, q)),
            forall|p: S, q: S| times.requires((p, q)),
        ensures
            *final(world) == (World {
                positions: final(world).positions,
                velocities: final(world).velocities,
                jump_states: final(world).jump_states,
                ..*old(world)
            }),
            final(world).wf(),
            forall|i: int|
                0 <= i < old(world).capacity() ==> (#[trigger] final(world).jump_states@[i])
                    == old(world).jump_state_after_input(i),
            forall|i: int|
                0 <= i < old(world).capacity() ==> (#[trigger] final(world).velocities@[i])
                    == old(world).velocity_after_input(i),
            forall|i: int|
                0 <= i < old(world).capacity() ==> old(world).steered(
                    i,
                    dt,
                    plus,
                    minus,
                    times,
                    #[trigger] final(world).positions@[i],
                ),
    {
        let controls = world.input.controls;
        let jump = world.input.keys.is_down(controls.jump);
        let up = world.input.keys.is_down(controls.up);
        let down = world.input.keys.is_down(controls.down);
        let left = world.input.keys.is_down(controls.left);
        let right = world.input.keys.is_down(controls.right);
        let mut idx: usize = 0;
        while idx < world.entities.len()
            invariant
                old(world).wf(),
                world.wf(),
                *world == (World {
                    positions: world.positions,
                    velocities: world.velocities,
                    jump_states: world.jump_states,
                    ..*old(world)
                }),
                idx <= old(world).capacity(),
                forall|p: S, q: S| plus.requires((p, q)),
                forall|p: S, q: S| minus.requires((p, q)),
                forall|p: S, q: S| times.requires((p, q)),
                controls == old(world).input.controls,
                jump == old(world).key_down(controls.jump),
                up == old(world).key_down(controls.up),
                down == old(world).key_down(controls.down),
                left == old(world).key_down(controls.left),
                right == old(world).key_down(controls.right),
                forall|i: int|
                    0 <= i < idx ==> world.jump_states@[i] == old(world).jump_state_after_input(i),
                forall|i: int|
                    0 <= i < idx ==> world.velocities@[i] == old(world).velocity_after_input(i),
                forall|i: int|
                    0 <= i < idx ==> old(world).steered(
                        i,
                        dt,
                        plus,
                        minus,
                        times,
                        world.positions@[i],
                    ),
                forall|i: int|
                    idx <= i < old(world).capacity() ==> world.jump_states@[i] == old(
                        world,
                    ).jump_states@[i],
                forall|i: int|
                    idx <= i < old(world).capacity() ==> world.velocities@[i] == old(
                        world,
                    ).velocities@[i],
                forall|i: int|
                    idx <= i < old(world).capacity() ==> world.positions@[i] == old(
                        world,
                    ).positions@[i],
            decreases old(world).capacity() - idx,
        {
            if world.entities[idx] & entity::CONTROLLED == entity::CONTROLLED {
                let mut velocity = world.velocities[idx];
                if jump {
                    let mut state = world.jump_states[idx];
                    if state.jump(world.players[idx].max_jump_count) {
                        velocity.velocity.y = velocity.acceleration.y;
                        world.velocities[idx] = velocity;
                    }
                    world.jump_states[idx] = state;
                }
                let speed = velocity.acceleration;
                let mut pos = world.positions[idx];
                let risen = nudge(&plus, &times, dt, speed.y, up, pos.y);
                pos.y = nudge(&minus, &times, dt, speed.y, down, risen);
                let shifted = nudge(&minus, &times, dt, speed.x, left, pos.x);
                pos.x = nudge(&plus, &times, dt, speed.x, right, shifted);
                world.positions[idx] = pos;
            }
            idx += 1;
        }
    }

    /// The movement system. Every moving entity's velocity grows by its
    /// acceleration, and its position then grows by the new velocity. The
    /// addition is the caller's: `plus`. Neither step is scaled by time.
    pub fn movement<Add: Fn(S, S) -> S>(world: &mut World<S>, plus: Add)
        requires
            old(world).wf(),
            forall|p: S, q: S| plus.requires((p, q)),
        ensures
            *final(world) == (World {
                positions: final(world).positions,
                velocities: final(world).velocities,
                ..*old(world)
            }),
            final(world).wf(),
            forall|i: int|
                #![trigger final(world).velocities@[i]]
                #![trigger final(world).positions@[i]]
                0 <= i < old(world).capacity() ==> old(world).moved(
                    i,
                    plus,
                    final(world).velocities@[i],
                    final(world).positions@[i],
                ),
    {
        let mut idx: usize = 0;
        while idx < world.entities.len()
            invariant
                old(world).wf(),
                world.wf(),
                *world == (World {
                    positions: world.positions,
                    velocities: world.velocities,
                    ..*old(world)
                }),
                idx <= old(world).capacity(),
                forall|p: S, q: S| plus.requires((p, q)),
                forall|i: int|
                    0 <= i < idx ==> old(world).moved(
                        i,
                        plus,
                        world.velocities@[i],
                        world.positions@[i],
                    ),
                forall|i: int|
                    idx <= i < old(world).capacity() ==> world.velocities@[i] == old(
                        world,
                    ).velocities@[i],
                forall|i: int|
                    idx <= i < old(world).capacity() ==> world.positions@[i] == old(
                        world,
                    ).positions@[i],
            decreases old(world).capacity() - idx,
        {
            if world.entities[idx] & entity::MOVING == entity::MOVING {
                let mut velocity = world.velocities[idx];
                velocity.velocity = sum(&plus, velocity.velocity, velocity.acceleration);
                let pos = sum(&plus, world.positions[idx], velocity.velocity);
                world.velocities[idx] = velocity;
                world.positions[idx] = pos;
            }
            idx += 1;
        }
    }

    /// Render submission: one draw command for every renderable entity, in
    /// slot order. Halving is the caller's: `halve`; `zero` is its number
    /// zero. Where a sprite names a texture that a list of `texture_count`
    /// textures does not hold, nothing is drawn and the lowest such slot is
    /// reported.
    pub fn render<Half: Fn(S) -> S>(
        world: &World<S>,
        texture_count: usize,
        halve: Half,
        zero: S,
    ) -> (drawn: Result<Vec<DrawCommand<S>>, RenderError>)
        requires
            world.wf(),
            forall|p: S| halve.requires((p,)),
        ensures
            match drawn {
                Ok(draws) => {
                    &&& forall|i: int|
                        0 <= i < world.capacity() ==> !world.texture_missing(i, texture_count)
                    &&& draws@.len() == matching_slots(world.entities@, entity::RENDERABLE).len()
                    &&& forall|k: int|
                        0 <= k < draws@.len() ==> world.draws(
                            matching_slots(world.entities@, entity::RENDERABLE)[k],
                            halve,
                            zero,
                            #[trigger] draws@[k],
                        )
                },
                Err(RenderError::MissingTexture { slot, tex_idx }) => {
                    &&& slot < world.capacity()
                    &&& world.texture_missing(slot as int, texture_count)
                    &&& forall|i: int| 0 <= i < slot ==> !world.texture_missing(i, texture_count)
                    &&& tex_idx == world.sprites@[slot as int].tex_idx
                },
            },
    {
        let mut draws: Vec<DrawCommand<S>> = Vec::new();
        let mut idx: usize = 0;
        while idx < world.entities.len()
            invariant
                world.wf(),
                forall|p: S| halve.requires((p,)),
                idx <= world.capacity(),
                forall|i: int| 0 <= i < idx ==> !world.texture_missing(i, texture_count),
                draws@.len() == matching_slots(
                    world.entities@.take(idx as int),
                    entity::RENDERABLE,
                ).len(),
                forall|k: int|
                    0 <= k < draws@.len() ==> world.draws(
                        matching_slots(world.entities@.take(idx as int), entity::RENDERABLE)[k],
                        halve,
                        zero,
                        #[trigger] draws@[k],
                    ),
            decreases world.capacity() - idx,
        {
            proof {
                lemma_matching_slots_step(world.entities@, entity::RENDERABLE, idx as int);
            }
            if world.entities[idx] & entity::RENDERABLE == entity::RENDERABLE {
                let tex_idx: usize = world.sprites[idx].tex_idx;
                if tex_idx >= texture_count {
                    return Err(RenderError::MissingTexture { slot: idx, tex_idx });
                }
                let size = world.sizes[idx];
                let recenter = Vec3 { x: halve(size.x), y: halve(size.y), z: zero };
                let scale = Vec3 { x: halve(size.x), y: halve(size.y), z: halve(size.z) };
                draws.push(
                    DrawCommand { slot: idx, position: world.positions[idx], recenter, scale, tex_idx },
                );
            }
            idx += 1;
        }
        assert(world.entities@.take(idx as int) =~= world.entities@);
        Ok(draws)
    }
}

} // verus!
