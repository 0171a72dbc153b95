use tower_climber::ecs::components::entity;
use tower_climber::ecs::components::{
    JumpState, Player, Sprite, Vec3, Velocity, JUMP_STATE, NONE, PLAYER, POSITION, SIZE, SPRITE,
    VELOCITY,
};
use tower_climber::ecs::World;
use tower_climber::input::{Controls, KeyState};

fn controls() -> Controls {
    Controls::new(76, 71, 73, 70, 72, 142).unwrap()
}

fn store(capacity: usize) -> World<f32> {
    World::new(capacity, controls(), 0, 0.0)
}

#[test]
fn component_bits_are_distinct_powers_of_two() {
    assert_eq!(NONE, 1);
    assert_eq!(POSITION, 1 << 1);
    assert_eq!(SIZE, 1 << 2);
    assert_eq!(VELOCITY, 1 << 3);
    assert_eq!(SPRITE, 1 << 4);
    assert_eq!(PLAYER, 1 << 5);
    assert_eq!(JUMP_STATE, 1 << 6);
}

#[test]
fn entity_masks_are_unions_of_component_bits() {
    assert_eq!(entity::PLAYER, POSITION | SIZE | VELOCITY | SPRITE | PLAYER | JUMP_STATE);
    assert_eq!(entity::CONTROLLED, POSITION | VELOCITY | PLAYER | JUMP_STATE);
    assert_eq!(entity::MOVING, POSITION | VELOCITY);
    assert_eq!(entity::RENDERABLE, POSITION | SIZE | SPRITE);
}

#[test]
fn new_store_has_one_entry_per_slot_in_every_table() {
    let world = store(4);
    assert_eq!(world.entities, vec![NONE; 4]);
    assert_eq!(world.positions, vec![Vec3 { x: 0.0, y: 0.0, z: 0.0 }; 4]);
    assert_eq!(world.sizes, vec![Vec3 { x: 0.0, y: 0.0, z: 0.0 }; 4]);
    let rest = Velocity {
        velocity: Vec3 { x: 0.0, y: 0.0, z: 0.0 },
        acceleration: Vec3 { x: 0.0, y: 0.0, z: 0.0 },
    };
    assert_eq!(world.velocities, vec![rest; 4]);
    assert_eq!(world.sprites, vec![Sprite { tex_idx: 0 }; 4]);
    assert_eq!(world.players, vec![Player { state: JumpState::Standing, max_jump_count: 0 }; 4]);
    assert_eq!(world.jump_states, vec![JumpState::Standing; 4]);
    assert!(world.input.keys.0.iter().all(|key| *key == KeyState::Released));
    assert_eq!(world.input.controls, controls());
}

#[test]
fn store_of_no_slots_is_full() {
    let mut world = store(0);
    assert!(world.entities.is_empty());
    assert_eq!(world.try_new_entity(Some(POSITION)), None);
    assert_eq!(world.for_each(0), Vec::<usize>::new());
}

#[test]
fn allocated_slot_has_every_bit_of_its_mask() {
    let mut world = store(4);
    let mask = POSITION | VELOCITY | SPRITE;
    let slot = world.new_entity(Some(mask));
    assert_eq!(slot, 0);
    assert_eq!(world.entities[slot], mask);
    assert!(world.has(slot, POSITION));
    assert!(world.has(slot, VELOCITY));
    assert!(world.has(slot, SPRITE));
    assert!(world.has(slot, POSITION | SPRITE));
    assert!(world.has(slot, mask));
    assert!(!world.has(slot, SIZE));
    assert!(!world.has(slot, POSITION | SIZE));
    assert!(!world.has(slot, PLAYER));
}

#[test]
fn freed_slot_has_no_component() {
    let mut world = store(4);
    let slot = world.new_entity(Some(entity::PLAYER));
    world.remove_entity(slot as u64);
    assert_eq!(world.entities[slot], NONE);
    for mask in [POSITION, SIZE, VELOCITY, SPRITE, PLAYER, JUMP_STATE, entity::PLAYER, u64::MAX] {
        assert!(!world.has(slot, mask));
    }
    for mask in 2..256u64 {
        assert!(!world.has(slot, mask));
    }
}

#[test]
fn free_keeps_component_values() {
    let mut world = store(2);
    let slot = world.new_entity(Some(entity::PLAYER));
    world.positions[slot] = Vec3 { x: 3.0, y: 4.0, z: 5.0 };
    world.sprites[slot] = Sprite { tex_idx: 7 };
    world.jump_states[slot] = JumpState::Jumping(2);
    world.remove_entity(slot as u64);
    assert_eq!(world.positions[slot], Vec3 { x: 3.0, y: 4.0, z: 5.0 });
    assert_eq!(world.sprites[slot], Sprite { tex_idx: 7 });
    assert_eq!(world.jump_states[slot], JumpState::Jumping(2));
}

#[test]
fn free_undoes_allocation() {
    let mut world = store(3);
    world.new_entity(Some(POSITION));
    let before = world.entities.clone();
    let slot = world.new_entity(Some(entity::PLAYER));
    world.remove_entity(slot as u64);
    assert_eq!(world.entities, before);
}

#[test]
fn slots_are_given_out_in_index_order() {
    let mut world = store(3);
    assert_eq!(world.new_entity(Some(POSITION)), 0);
    assert_eq!(world.new_entity(Some(SIZE)), 1);
    assert_eq!(world.new_entity(Some(SPRITE)), 2);
    assert_eq!(world.entities, vec![POSITION, SIZE, SPRITE]);
}

#[test]
fn freed_slot_is_the_next_one_given_out() {
    let mut world = store(4);
    for _ in 0..4 {
        world.new_entity(Some(POSITION));
    }
    world.remove_entity(2);
    assert_eq!(world.new_entity(Some(VELOCITY)), 2);
    assert_eq!(world.entities, vec![POSITION, POSITION, VELOCITY, POSITION]);
}

#[test]
fn lowest_of_several_freed_slots_is_given_out_first() {
    let mut world = store(4);
    for _ in 0..4 {
        world.new_entity(Some(POSITION));
    }
    world.remove_entity(3);
    world.remove_entity(1);
    assert_eq!(world.new_entity(Some(SIZE)), 1);
    assert_eq!(world.new_entity(Some(SIZE)), 3);
}

#[test]
fn full_store_gives_out_no_slot() {
    let mut world = store(2);
    assert_eq!(world.try_new_entity(Some(POSITION)), Some(0));
    assert_eq!(world.try_new_entity(Some(SIZE)), Some(1));
    assert_eq!(world.try_new_entity(Some(VELOCITY)), None);
    assert_eq!(world.try_new_entity(None), None);
    assert_eq!(world.entities, vec![POSITION, SIZE]);
}

#[test]
fn entity_without_mask_leaves_its_slot_free() {
    let mut world = store(2);
    assert_eq!(world.new_entity(None), 0);
    assert_eq!(world.entities, vec![NONE, NONE]);
    assert_eq!(world.new_entity(Some(POSITION)), 0);
    assert_eq!(world.entities, vec![POSITION, NONE]);
}

#[test]
fn entity_with_no_component_still_takes_its_slot() {
    let mut world = store(2);
    assert_eq!(world.new_entity(Some(0)), 0);
    assert_eq!(world.new_entity(Some(POSITION)), 1);
    assert_eq!(world.entities, vec![0, POSITION]);
}

#[test]
fn query_yields_exactly_the_matching_slots() {
    let mut world = store(3);
    world.new_entity(Some(POSITION));
    world.new_entity(Some(POSITION | VELOCITY));
    assert_eq!(world.entities, vec![POSITION, POSITION | VELOCITY, NONE]);
    assert_eq!(world.for_each(POSITION | VELOCITY), vec![1]);
    assert_eq!(world.for_each(POSITION), vec![0, 1]);
    assert_eq!(world.for_each(SIZE), Vec::<usize>::new());
}

#[test]
fn query_yields_supersets_in_slot_order() {
    let mut world = store(5);
    world.new_entity(Some(entity::PLAYER));
    world.new_entity(Some(SPRITE));
    world.new_entity(Some(POSITION | VELOCITY));
    world.new_entity(Some(POSITION | VELOCITY | SPRITE));
    assert_eq!(world.for_each(entity::MOVING), vec![0, 2, 3]);
    assert_eq!(world.for_each(SPRITE), vec![0, 1, 3]);
    assert_eq!(world.for_each(entity::MOVING), vec![0, 2, 3]);
}

#[test]
fn query_for_the_empty_mask_yields_free_slots() {
    let mut world = store(3);
    world.new_entity(Some(POSITION));
    assert_eq!(world.for_each(NONE), vec![1, 2]);
    assert_eq!(world.for_each(0), vec![0, 1, 2]);
}
