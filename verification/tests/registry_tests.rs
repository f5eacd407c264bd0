use rollback_core::character::{
    CharacterCollider, CharacterControllerBundle, CharacterState, ColliderShape, MovementBundle,
};
use rollback_core::collision_masks::CollisionMask;
use rollback_core::geometry::{StaticGeometry, StaticRect};
use rollback_core::input::{INPUT_FIRE, INPUT_LEFT, INPUT_RIGHT, InputFrame};
use rollback_core::math::FxVec2;
use rollback_core::registry::{WorldState, step_world};

fn character_at(x: i64, y: i64) -> CharacterState {
    let bundle = CharacterControllerBundle::new(
        ColliderShape { half_x: 4000, half_y: 6500 },
        CollisionMask::from(CharacterCollider::Player),
    );
    let movement = MovementBundle::new(7_000, 900, 7_000, 6_313, 100_000);
    CharacterState::spawn(FxVec2 { x, y }, bundle, movement)
}

fn flat_level() -> StaticGeometry {
    StaticGeometry {
        rects: vec![StaticRect {
            center: FxVec2 { x: 0, y: -5000 },
            half: ColliderShape { half_x: 1_000_000, half_y: 5000 },
        }],
    }
}

fn test_world() -> WorldState {
    WorldState::new(
        vec![character_at(-20_000, 6435), character_at(20_000, 6435)],
        FxVec2 { x: 0, y: -84_000 },
    )
}

fn frames(m0: u8, m1: u8) -> Vec<InputFrame> {
    vec![
        InputFrame { mask: m0, connected: true },
        InputFrame { mask: m1, connected: true },
    ]
}

fn assert_worlds_equal(a: &WorldState, b: &WorldState) {
    assert_eq!(a.characters, b.characters);
    assert_eq!(a.gravity, b.gravity);
    assert_eq!(a.paused, b.paused);
}

#[test]
fn stepping_twice_from_the_same_state_is_bit_identical() {
    let geom = flat_level();
    let mut w1 = test_world();
    let mut w2 = test_world();
    let script = [INPUT_RIGHT, INPUT_RIGHT | INPUT_FIRE, 0, INPUT_LEFT, INPUT_FIRE];
    for m in script {
        step_world(&mut w1, &frames(m, INPUT_LEFT), &geom, 60);
        step_world(&mut w2, &frames(m, INPUT_LEFT), &geom, 60);
    }
    assert_worlds_equal(&w1, &w2);
}

#[test]
fn restore_and_replay_matches_the_forward_run() {
    let geom = flat_level();
    let script = [INPUT_RIGHT, INPUT_FIRE, INPUT_RIGHT, 0, INPUT_LEFT];

    // A single uninterrupted forward run.
    let mut forward = test_world();
    for m in script {
        step_world(&mut forward, &frames(m, 0), &geom, 60);
    }

    // The same run, snapshotted after two ticks, finished, rolled
    // back, and replayed.
    let mut replayed = test_world();
    step_world(&mut replayed, &frames(script[0], 0), &geom, 60);
    step_world(&mut replayed, &frames(script[1], 0), &geom, 60);
    let snap = replayed.snapshot(2);
    for m in &script[2..] {
        step_world(&mut replayed, &frames(*m, 0), &geom, 60);
    }
    assert_worlds_equal(&forward, &replayed);
    replayed.restore(&snap);
    for m in &script[2..] {
        step_world(&mut replayed, &frames(*m, 0), &geom, 60);
    }
    assert_worlds_equal(&forward, &replayed);
}

#[test]
fn a_paused_world_does_not_advance() {
    let geom = flat_level();
    let mut w = test_world();
    w.paused = true;
    let before = w.characters.clone();
    step_world(&mut w, &frames(INPUT_RIGHT, INPUT_LEFT), &geom, 60);
    assert_eq!(w.characters, before);
}

#[test]
fn landing_grounds_and_stops_the_fall() {
    let geom = flat_level();
    let mut w = test_world();
    // Spawned just above the floor and falling: within a few ticks the
    // character rests on it, grounded, with no vertical speed.
    for _ in 0..5 {
        step_world(&mut w, &frames(0, 0), &geom, 60);
    }
    assert!(w.characters[0].grounded);
    assert_eq!(w.characters[0].vel.y, 0);
    assert_eq!(w.characters[0].pos.y, 6500);
}

#[test]
fn held_input_never_exceeds_the_speed_cap() {
    // The concrete face of the clamp-correctness law: acceleration 7,
    // cap 20, damping 0.9, held right for 200 ticks.
    let geom = StaticGeometry { rects: Vec::new() };
    let mut w = test_world();
    for _ in 0..200 {
        step_world(&mut w, &frames(INPUT_RIGHT, 0), &geom, 60);
        assert!(w.characters[0].vel.x.abs() <= 20_000);
        assert!(w.characters[0].vel.x > 0);
    }
}

#[test]
fn released_input_decays_by_the_damping_factor() {
    // The concrete face of the damping-decay law: from 20 units/s,
    // three idle ticks leave 20 * 0.9^3 = 14.58 units/s.
    let geom = StaticGeometry { rects: Vec::new() };
    let mut w = test_world();
    w.characters[0].vel.x = 20_000;
    for _ in 0..3 {
        step_world(&mut w, &frames(0, 0), &geom, 60);
    }
    assert_eq!(w.characters[0].vel.x, 14_580);
}
