use rollback_core::character::{
    CharacterCollider, CharacterControllerBundle, CharacterState, ColliderShape, MovementBundle,
    Player,
};
use rollback_core::collision_masks::{
    CHECKPOINT_LAYER, CollisionMask, INTERACTIBLE_LAYER, LayerEnum, PLAYER_LAYER, WALL_LAYER,
};
use rollback_core::math::FxVec2;
use rollback_core::spawn::{PlayerSpawnState, take_spawn_assignments};

#[test]
fn player_handles_are_kept_as_given() {
    assert_eq!(Player::new(3), Player { handle: 3 });
}

#[test]
fn default_movement_tuning() {
    let b = MovementBundle::default();
    assert_eq!(b.acceleration.0, 30_000);
    assert_eq!(b.damping.0, 900);
    assert_eq!(b.jump_impulse.0, 7_000);
    assert_eq!(b.max_slope_angle.0, 6_313);
    assert_eq!(b.max_jump_height.0, 100_000);
}

#[test]
fn controller_bundle_shrinks_the_sensor_shape() {
    let bundle = CharacterControllerBundle::new(
        ColliderShape { half_x: 4000, half_y: 6500 },
        CollisionMask::from(CharacterCollider::Player),
    );
    assert_eq!(bundle.sensor_shape, ColliderShape { half_x: 3960, half_y: 6435 });
    assert!(bundle.rotation_locked);
}

#[test]
fn player_archetype_shape_and_layers() {
    let shape = ColliderShape::from(CharacterCollider::Player);
    assert_eq!(shape, ColliderShape { half_x: 4000, half_y: 6500 });
    let mask = CollisionMask::from(CharacterCollider::Player);
    assert_eq!(mask.memberships, PLAYER_LAYER);
    assert_eq!(mask.filters, WALL_LAYER | INTERACTIBLE_LAYER | CHECKPOINT_LAYER);
}

#[test]
fn layer_bits_are_distinct() {
    assert_eq!(LayerEnum::Wall.bit(), WALL_LAYER);
    assert_eq!(LayerEnum::Player.bit(), PLAYER_LAYER);
    assert_eq!(LayerEnum::Interactible.bit(), INTERACTIBLE_LAYER);
    assert_eq!(LayerEnum::Checkpoint.bit(), CHECKPOINT_LAYER);
    assert_eq!(LayerEnum::NoLayer.bit(), 0);
    assert_eq!(WALL_LAYER | PLAYER_LAYER | INTERACTIBLE_LAYER | CHECKPOINT_LAYER, 0b1111);
}

#[test]
fn spawned_characters_start_at_rest_and_airborne() {
    let bundle = CharacterControllerBundle::new(
        ColliderShape { half_x: 4000, half_y: 6500 },
        CollisionMask::from(CharacterCollider::Player),
    );
    let c = CharacterState::spawn(FxVec2 { x: 7, y: -9 }, bundle, MovementBundle::default());
    assert_eq!(c.pos, FxVec2 { x: 7, y: -9 });
    assert_eq!(c.vel, FxVec2 { x: 0, y: 0 });
    assert!(!c.grounded);
}

#[test]
fn get_spawn_takes_the_latest_loaded_location() {
    let mut st = PlayerSpawnState::new();
    st.loaded_spawns.push(FxVec2 { x: 1, y: 1 });
    st.loaded_spawns.push(FxVec2 { x: 2, y: 2 });
    assert_eq!(st.get_spawn(), FxVec2 { x: 2, y: 2 });
    assert_eq!(st.get_spawn(), FxVec2 { x: 1, y: 1 });
    assert_eq!(st.loaded_spawns.len(), 0);
}

#[test]
fn spawn_assignments_pair_latest_first_until_one_side_runs_out() {
    let mut st = PlayerSpawnState::new();
    st.loaded_spawns.push(FxVec2 { x: 1, y: 1 });
    st.loaded_spawns.push(FxVec2 { x: 2, y: 2 });
    st.loaded_spawns.push(FxVec2 { x: 3, y: 3 });
    st.players_waiting.push(10);
    st.players_waiting.push(11);
    let placed = take_spawn_assignments(&mut st);
    assert_eq!(placed, vec![(11, FxVec2 { x: 3, y: 3 }), (10, FxVec2 { x: 2, y: 2 })]);
    assert_eq!(st.players_waiting.len(), 0);
    assert_eq!(st.loaded_spawns, vec![FxVec2 { x: 1, y: 1 }]);
}
