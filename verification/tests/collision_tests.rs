use rollback_core::character::{
    CharacterCollider, CharacterControllerBundle, CharacterState, ColliderShape, MovementBundle,
};
use rollback_core::collision_masks::CollisionMask;
use rollback_core::collision::{ContactManifold, gen_contacts, kinematic_controller_collisions};
use rollback_core::geometry::{StaticGeometry, StaticRect, ground_hit, probe_grounded, rect_manifold};
use rollback_core::math::FxVec2;

fn character_at(x: i64, y: i64) -> CharacterState {
    let bundle = CharacterControllerBundle::new(
        ColliderShape { half_x: 4000, half_y: 6500 },
        CollisionMask::from(CharacterCollider::Player),
    );
    let movement = MovementBundle::new(7_000, 900, 7_000, 6_313, 100_000);
    CharacterState::spawn(FxVec2 { x, y }, bundle, movement)
}

fn floor() -> StaticRect {
    // A wide floor whose top face is at y == 0.
    StaticRect {
        center: FxVec2 { x: 0, y: -5000 },
        half: ColliderShape { half_x: 1_000_000, half_y: 5000 },
    }
}

#[test]
fn narrow_phase_reports_the_least_penetrated_axis() {
    // A character sunk 0.5 units into the floor.
    let c = character_at(0, 6000);
    let m = rect_manifold(&c, &floor());
    assert_eq!(m, Some((FxVec2 { x: 0, y: 1000 }, 500)));
}

#[test]
fn narrow_phase_reports_speculative_separation() {
    // Resting exactly on the surface: penetration zero.
    let c = character_at(0, 6500);
    let m = rect_manifold(&c, &floor());
    assert_eq!(m, Some((FxVec2 { x: 0, y: 1000 }, 0)));
    // Too far away: no manifold.
    let far = character_at(0, 20_000);
    assert_eq!(rect_manifold(&far, &floor()), None);
}

#[test]
fn penetration_is_pushed_out_before_velocity_correction() {
    let mut chars = vec![character_at(0, 6000)];
    let manifolds = vec![ContactManifold {
        character: 0,
        other_dynamic: false,
        normal: FxVec2 { x: 0, y: 1000 },
        penetrations: vec![500],
    }];
    kinematic_controller_collisions(&mut chars, &manifolds, 60);
    assert_eq!(chars[0].pos, FxVec2 { x: 0, y: 6500 });
}

#[test]
fn unclimbable_contact_slides_along_the_wall() {
    let mut chars = vec![character_at(0, 0)];
    chars[0].vel = FxVec2 { x: -500, y: -200 };
    let manifolds = vec![ContactManifold {
        character: 0,
        other_dynamic: false,
        normal: FxVec2 { x: 1000, y: 0 },
        penetrations: vec![100],
    }];
    kinematic_controller_collisions(&mut chars, &manifolds, 60);
    // Pushed out of the wall, normal component of velocity rejected.
    assert_eq!(chars[0].pos.x, 100);
    assert_eq!(chars[0].vel, FxVec2 { x: 0, y: -200 });
}

#[test]
fn moving_away_from_a_wall_is_left_alone() {
    let mut chars = vec![character_at(0, 0)];
    chars[0].vel = FxVec2 { x: 700, y: 0 };
    let manifolds = vec![ContactManifold {
        character: 0,
        other_dynamic: false,
        normal: FxVec2 { x: 1000, y: 0 },
        penetrations: vec![100],
    }];
    kinematic_controller_collisions(&mut chars, &manifolds, 60);
    assert_eq!(chars[0].vel, FxVec2 { x: 700, y: 0 });
}

#[test]
fn speculative_contact_cancels_exactly_the_closing_speed() {
    // Falling at 30 units/s, 0.3 units above the floor: one tick would
    // penetrate; exactly the surplus is cancelled so the tick ends in
    // touch-down, not tunnelling.
    let mut chars = vec![character_at(0, 6800)];
    chars[0].vel = FxVec2 { x: 0, y: -30_000 };
    let manifolds = vec![ContactManifold {
        character: 0,
        other_dynamic: false,
        normal: FxVec2 { x: 0, y: 1000 },
        penetrations: vec![-300],
    }];
    kinematic_controller_collisions(&mut chars, &manifolds, 60);
    assert_eq!(chars[0].vel, FxVec2 { x: 0, y: -18_000 });
    assert_eq!(chars[0].pos, FxVec2 { x: 0, y: 6800 });
}

#[test]
fn climbable_contact_snaps_vertical_speed_to_the_slope() {
    // 3-4-5 slope, moving uphill: the vertical speed floor follows the
    // along-slope speed.
    let mut chars = vec![character_at(0, 0)];
    chars[0].vel = FxVec2 { x: -10_000, y: -9_000 };
    let manifolds = vec![ContactManifold {
        character: 0,
        other_dynamic: false,
        normal: FxVec2 { x: 600, y: 800 },
        penetrations: vec![50],
    }];
    kinematic_controller_collisions(&mut chars, &manifolds, 60);
    assert_eq!(chars[0].pos, FxVec2 { x: 30, y: 40 });
    // floor = -(vel.x * n.x) / n.y = 7500; vel.y snaps up to it.
    assert_eq!(chars[0].vel, FxVec2 { x: -10_000, y: 7_500 });
}

#[test]
fn dynamic_bodies_only_push_never_correct_velocity() {
    let mut chars = vec![character_at(0, 0)];
    chars[0].vel = FxVec2 { x: -500, y: 0 };
    let manifolds = vec![ContactManifold {
        character: 0,
        other_dynamic: true,
        normal: FxVec2 { x: 1000, y: 0 },
        penetrations: vec![100],
    }];
    kinematic_controller_collisions(&mut chars, &manifolds, 60);
    assert_eq!(chars[0].pos.x, 100);
    assert_eq!(chars[0].vel, FxVec2 { x: -500, y: 0 });
}

#[test]
fn a_manifold_for_no_live_character_changes_nothing() {
    let mut chars = vec![character_at(0, 0)];
    let before = chars[0];
    let manifolds = vec![ContactManifold {
        character: 5,
        other_dynamic: false,
        normal: FxVec2 { x: 0, y: 1000 },
        penetrations: vec![100],
    }];
    kinematic_controller_collisions(&mut chars, &manifolds, 60);
    assert_eq!(chars[0], before);
}

#[test]
fn gen_contacts_visits_characters_then_rects_in_order() {
    let chars = vec![character_at(0, 6000), character_at(50_000, 20_000)];
    let geom = StaticGeometry { rects: vec![floor()] };
    let ms = gen_contacts(&chars, &geom);
    // Only the first character is near the floor.
    assert_eq!(ms.len(), 1);
    assert_eq!(ms[0].character, 0);
    assert_eq!(ms[0].normal, FxVec2 { x: 0, y: 1000 });
    assert_eq!(ms[0].penetrations, vec![500]);
    assert!(!ms[0].other_dynamic);
}

#[test]
fn ground_probe_hits_within_its_reach_only() {
    let geom = StaticGeometry { rects: vec![floor()] };
    // Sensor half-height is 6435 (the collider shrunk to 99 percent);
    // resting position puts the sensor underside exactly on the floor.
    let resting = character_at(0, 6435);
    assert!(ground_hit(&resting, &floor()));
    assert!(probe_grounded(&resting, &geom));
    // Just inside the probe distance below the underside.
    let hovering = character_at(0, 6435 + 500);
    assert!(probe_grounded(&hovering, &geom));
    // One unit beyond the probe distance.
    let too_high = character_at(0, 6435 + 501);
    assert!(!probe_grounded(&too_high, &geom));
}
