use rollback_core::character::{
    CharacterCollider, CharacterControllerBundle, CharacterState, ColliderShape, MovementBundle,
    Player,
};
use rollback_core::collision_masks::CollisionMask;
use rollback_core::geometry::climbable;
use rollback_core::input::{INPUT_FIRE, INPUT_RIGHT, INPUT_UP, InputFrame};
use rollback_core::math::FxVec2;
use rollback_core::sim::{
    MovementAction, apply_gravity, apply_movement_damping, flatten_events, has_jump_for,
    integrate_positions, latest_move_for, move_players, process_inputs, update_grounded,
};

fn test_character(max_slope: i64) -> CharacterState {
    let bundle = CharacterControllerBundle::new(
        ColliderShape { half_x: 4000, half_y: 6500 },
        CollisionMask::from(CharacterCollider::Player),
    );
    // Acceleration 7, damping 0.9 per tick, jump impulse 7.
    let movement = MovementBundle::new(7_000, 900, 7_000, max_slope, 100_000);
    CharacterState::spawn(FxVec2 { x: 0, y: 0 }, bundle, movement)
}

#[test]
fn acceleration_from_rest_is_exact() {
    // One tick at 60 ticks/s with acceleration 7: 7 * 10 / 60 = 1.166 units/s.
    let mut chars = vec![test_character(6313)];
    let acts = vec![MovementAction::Move(0, FxVec2 { x: 1000, y: 0 })];
    move_players(&mut chars, &acts, 60);
    assert_eq!(chars[0].vel.x, 1166);
    move_players(&mut chars, &acts, 60);
    assert_eq!(chars[0].vel.x, 2332);
}

#[test]
fn diagonal_intent_contributes_its_normalized_share() {
    let mut chars = vec![test_character(6313)];
    let acts = vec![MovementAction::Move(0, FxVec2 { x: 1000, y: 1000 })];
    move_players(&mut chars, &acts, 60);
    // 0.707 * 7 * 10 / 60 = 0.824 units/s.
    assert_eq!(chars[0].vel.x, 824);
}

#[test]
fn speed_is_clamped_in_the_direction_of_travel() {
    let mut chars = vec![test_character(6313)];
    chars[0].vel.x = 19_500;
    let right = vec![MovementAction::Move(0, FxVec2 { x: 1000, y: 0 })];
    move_players(&mut chars, &right, 60);
    assert_eq!(chars[0].vel.x, 20_000);

    let mut chars = vec![test_character(6313)];
    chars[0].vel.x = -19_500;
    let left = vec![MovementAction::Move(0, FxVec2 { x: -1000, y: 0 })];
    move_players(&mut chars, &left, 60);
    assert_eq!(chars[0].vel.x, -20_000);
}

#[test]
fn opposite_component_is_not_clamped() {
    // Moving right while already fast to the left only adds speed.
    let mut chars = vec![test_character(6313)];
    chars[0].vel.x = -19_500;
    let right = vec![MovementAction::Move(0, FxVec2 { x: 1000, y: 0 })];
    move_players(&mut chars, &right, 60);
    assert_eq!(chars[0].vel.x, -19_500 + 1166);
}

#[test]
fn damping_decays_by_the_factor_each_tick() {
    let mut chars = vec![test_character(6313)];
    chars[0].vel.x = 20_000;
    apply_movement_damping(&mut chars);
    assert_eq!(chars[0].vel.x, 18_000);
    apply_movement_damping(&mut chars);
    assert_eq!(chars[0].vel.x, 16_200);
    apply_movement_damping(&mut chars);
    assert_eq!(chars[0].vel.x, 14_580);
}

#[test]
fn damping_rounds_toward_zero_for_negative_speeds() {
    let mut chars = vec![test_character(6313)];
    chars[0].vel.x = -15;
    apply_movement_damping(&mut chars);
    assert_eq!(chars[0].vel.x, -13);
}

#[test]
fn gravity_pulls_airborne_characters_only() {
    let g = FxVec2 { x: 0, y: -84_000 };
    let mut chars = vec![test_character(6313)];
    apply_gravity(&mut chars, g, 60);
    assert_eq!(chars[0].vel.y, -1400);

    let mut grounded = vec![test_character(6313)];
    grounded[0].grounded = true;
    apply_gravity(&mut grounded, g, 60);
    assert_eq!(grounded[0].vel.y, 0);
}

#[test]
fn jump_requires_ground_under_the_feet() {
    let acts = vec![MovementAction::Jump(0)];
    let mut airborne = vec![test_character(6313)];
    move_players(&mut airborne, &acts, 60);
    assert_eq!(airborne[0].vel.y, 0);

    let mut grounded = vec![test_character(6313)];
    grounded[0].grounded = true;
    move_players(&mut grounded, &acts, 60);
    // Jump impulse 7 scaled by 60 / tick rate 60.
    assert_eq!(grounded[0].vel.y, 7000);
}

#[test]
fn integration_moves_by_one_tick_of_velocity() {
    let mut chars = vec![test_character(6313)];
    chars[0].vel = FxVec2 { x: 1166, y: -600 };
    integrate_positions(&mut chars, 60);
    assert_eq!(chars[0].pos, FxVec2 { x: 19, y: -10 });
}

#[test]
fn grounded_at_the_exact_slope_boundary() {
    // Slope tangent 0.75 stored as 750 thousandths; the 3-4-5 normal
    // (600, 800) lies exactly on the boundary.
    let mut chars = vec![test_character(750)];
    let hits = vec![vec![FxVec2 { x: 600, y: 800 }]];
    update_grounded(&mut chars, &hits);
    assert!(chars[0].grounded);

    // One fixed-point unit steeper is no longer ground.
    let mut chars = vec![test_character(750)];
    let hits = vec![vec![FxVec2 { x: 601, y: 800 }]];
    update_grounded(&mut chars, &hits);
    assert!(!chars[0].grounded);
}

#[test]
fn climbable_boundary_is_exact() {
    assert!(climbable(FxVec2 { x: 600, y: 800 }, 750));
    assert!(!climbable(FxVec2 { x: 601, y: 800 }, 750));
    assert!(climbable(FxVec2 { x: 0, y: 1000 }, 0));
    assert!(!climbable(FxVec2 { x: 1, y: 1000 }, 0));
    // A surface with no upward normal is never climbable.
    assert!(!climbable(FxVec2 { x: 1000, y: 0 }, 1_000_000));
}

#[test]
fn process_inputs_decodes_connected_players() {
    let inputs = vec![
        InputFrame { mask: INPUT_RIGHT | INPUT_UP, connected: true },
        InputFrame { mask: INPUT_FIRE, connected: true },
    ];
    let players = vec![Player::new(0), Player::new(1)];
    let events = process_inputs(&inputs, &players);
    assert_eq!(events.len(), 2);
    assert_eq!(events[0].handle, 0);
    assert_eq!(events[0].actions, vec![MovementAction::Move(0, FxVec2 { x: 1000, y: 1000 })]);
    assert_eq!(events[1].handle, 1);
    assert_eq!(
        events[1].actions,
        vec![MovementAction::Move(1, FxVec2 { x: 0, y: 0 }), MovementAction::Jump(1)]
    );
}

#[test]
fn process_inputs_skips_disconnected_players() {
    let inputs = vec![InputFrame { mask: INPUT_RIGHT, connected: false }];
    let players = vec![Player::new(0)];
    let events = process_inputs(&inputs, &players);
    assert_eq!(events.len(), 0);
}

#[test]
fn latest_move_wins_and_any_jump_counts() {
    let inputs = vec![InputFrame { mask: INPUT_FIRE, connected: true }];
    let players = vec![Player::new(0)];
    let events = process_inputs(&inputs, &players);
    let mut acts = flatten_events(&events);
    acts.push(MovementAction::Move(0, FxVec2 { x: -1000, y: 0 }));
    assert_eq!(latest_move_for(&acts, 0), Some(FxVec2 { x: -1000, y: 0 }));
    assert!(has_jump_for(&acts, 0));
    assert_eq!(latest_move_for(&acts, 1), None);
    assert!(!has_jump_for(&acts, 1));
}
