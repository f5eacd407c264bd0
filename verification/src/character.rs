//! The per-player character: its tunables, its collider, and the state
//! the rollback registry snapshots.
//!
//! A character is a kinematic controller: the simulation writes its
//! velocity directly and corrects its position against static geometry,
//! rather than integrating forces.  Every tunable is fixed at spawn time
//! and never changes for the life of the character; only position,
//! velocity and the grounded flag are mutable, and exactly those fields
//! make a snapshot.

use vstd::prelude::*;

use crate::collision_masks::CHECKPOINT_LAYER;
use crate::collision_masks::CollisionMask;
use crate::collision_masks::INTERACTIBLE_LAYER;
use crate::collision_masks::PLAYER_LAYER;
use crate::collision_masks::WALL_LAYER;
use crate::math::COORD_LIMIT;
use crate::math::EXTENT_LIMIT;
use crate::math::FxVec2;
use crate::math::TUNABLE_LIMIT;
use crate::math::VEL_LIMIT;

verus! {

/// A player's stable handle, assigned in join order at session start.
/// Handles are dense: `0..num_players`, unique, never reused within a
/// session, and index every per-player array.
#[derive(Clone, Copy, PartialEq, Eq, Structural, Debug, Default)]
pub struct Player {
    pub handle: usize,
}

impl Player {
    /// A player with the given handle.
    pub fn new(handle: usize) -> (r: Player)
        ensures
            r == (Player { handle }),
    {
        Player { handle }
    }
}

/// Marker for entities driven by the kinematic character controller.
#[derive(Clone, Copy, PartialEq, Eq, Structural, Debug, Default)]
pub struct CharacterController;

/// Marker for a character standing on climbable ground.
#[derive(Clone, Copy, PartialEq, Eq, Structural, Debug, Default)]
pub struct Grounded;

/// Horizontal acceleration, fixed-point units per second squared.
#[derive(Clone, Copy, PartialEq, Eq, Structural, Debug, Default)]
pub struct MovementAcceleration(pub i64);

/// Jump take-off speed, fixed-point units per second.
#[derive(Clone, Copy, PartialEq, Eq, Structural, Debug, Default)]
pub struct JumpPower(pub i64);

/// Highest point a jump may reach, fixed-point units.
#[derive(Clone, Copy, PartialEq, Eq, Structural, Debug, Default)]
pub struct MaxJumpHeight(pub i64);

/// Per-tick horizontal damping factor in thousandths: each tick the
/// horizontal speed is multiplied by this value and divided by 1000.
#[derive(Clone, Copy, PartialEq, Eq, Structural, Debug, Default)]
pub struct MovementDampingFactor(pub i64);

/// Steepest climbable slope, stored as the tangent of the angle between
/// the surface normal and "up", in thousandths.
#[derive(Clone, Copy, PartialEq, Eq, Structural, Debug)]
pub struct MaxSlopeAngle(pub i64);

/// The movement tunables of one character, immutable after spawn.
#[derive(Clone, Copy, PartialEq, Eq, Structural, Debug)]
pub struct MovementBundle {
    pub acceleration: MovementAcceleration,
    pub damping: MovementDampingFactor,
    pub jump_impulse: JumpPower,
    pub max_jump_height: MaxJumpHeight,
    pub max_slope_angle: MaxSlopeAngle,
}

/// Tunables the simulation accepts: nonnegative, bounded, and a damping
/// factor strictly below one so horizontal speed decays.
pub open spec fn spec_bundle_wf(b: MovementBundle) -> bool {
    &&& 0 <= b.acceleration.0 <= TUNABLE_LIMIT
    &&& 0 <= b.damping.0 <= 999
    &&& 0 <= b.jump_impulse.0 <= TUNABLE_LIMIT
    &&& 0 <= b.max_jump_height.0 <= TUNABLE_LIMIT
    &&& 0 <= b.max_slope_angle.0 <= TUNABLE_LIMIT
}

impl MovementBundle {
    /// A bundle with the given tunables.
    pub fn new(
        acceleration: i64,
        damping: i64,
        jump_impulse: i64,
        max_slope_angle: i64,
        max_jump_height: i64,
    ) -> (r: MovementBundle)
        ensures
            r.acceleration.0 == acceleration,
            r.damping.0 == damping,
            r.jump_impulse.0 == jump_impulse,
            r.max_slope_angle.0 == max_slope_angle,
            r.max_jump_height.0 == max_jump_height,
    {
        MovementBundle {
            acceleration: MovementAcceleration(acceleration),
            damping: MovementDampingFactor(damping),
            jump_impulse: JumpPower(jump_impulse),
            max_jump_height: MaxJumpHeight(max_jump_height),
            max_slope_angle: MaxSlopeAngle(max_slope_angle),
        }
    }
}

impl Default for MovementBundle {
    /// The stock platformer tuning: acceleration 30, damping 0.9 per
    /// tick, jump impulse 7, a maximum slope of about 81 degrees
    /// (tangent 6.313), and a maximum jump height of 100 units.
    fn default() -> (r: MovementBundle)
        ensures
            r == (MovementBundle {
                acceleration: MovementAcceleration(30_000),
                damping: MovementDampingFactor(900),
                jump_impulse: JumpPower(7_000),
                max_jump_height: MaxJumpHeight(100_000),
                max_slope_angle: MaxSlopeAngle(6_313),
            }),
    {
        MovementBundle::new(30_000, 900, 7_000, 6_313, 100_000)
    }
}

/// A collider, modelled as an axis-aligned box by its half-extents in
/// fixed-point units.
#[derive(Clone, Copy, PartialEq, Eq, Structural, Debug, Default)]
pub struct ColliderShape {
    pub half_x: i64,
    pub half_y: i64,
}

/// A collider the simulation accepts: positive, bounded half-extents.
pub open spec fn spec_shape_wf(s: ColliderShape) -> bool {
    &&& 0 < s.half_x <= EXTENT_LIMIT
    &&& 0 < s.half_y <= EXTENT_LIMIT
}

/// The collider archetypes a character can spawn with.
#[derive(Clone, Copy, PartialEq, Eq, Structural, Debug)]
pub enum CharacterCollider {
    Player,
}

impl From<CharacterCollider> for ColliderShape {
    /// The collision shape of the archetype: the player capsule of
    /// radius 4 and inner length 5, boxed by its half-extents.
    fn from(value: CharacterCollider) -> (r: ColliderShape) {
        match value {
            CharacterCollider::Player => ColliderShape { half_x: 4_000, half_y: 6_500 },
        }
    }
}

impl vstd::std_specs::convert::FromSpecImpl<CharacterCollider> for ColliderShape {
    open spec fn obeys_from_spec() -> bool {
        true
    }

    open spec fn from_spec(value: CharacterCollider) -> ColliderShape {
        match value {
            CharacterCollider::Player => ColliderShape { half_x: 4_000, half_y: 6_500 },
        }
    }
}

impl From<CharacterCollider> for CollisionMask {
    /// The layers of the archetype: a player collides with walls,
    /// interactibles and checkpoints.
    fn from(value: CharacterCollider) -> (r: CollisionMask) {
        match value {
            CharacterCollider::Player => CollisionMask {
                memberships: PLAYER_LAYER,
                filters: WALL_LAYER | INTERACTIBLE_LAYER | CHECKPOINT_LAYER,
            },
        }
    }
}

impl vstd::std_specs::convert::FromSpecImpl<CharacterCollider> for CollisionMask {
    open spec fn obeys_from_spec() -> bool {
        true
    }

    open spec fn from_spec(value: CharacterCollider) -> CollisionMask {
        match value {
            CharacterCollider::Player => CollisionMask {
                memberships: PLAYER_LAYER,
                filters: WALL_LAYER | INTERACTIBLE_LAYER | CHECKPOINT_LAYER,
            },
        }
    }
}

/// Everything a character spawns with: collider, collision layers, the
/// slightly smaller sensor shape used by the ground probe (so the probe
/// cannot hit the character's own collider), and the movement tunables.
/// Rotation is always locked: a character never turns.
#[derive(Clone, Copy, PartialEq, Eq, Structural, Debug)]
pub struct CharacterControllerBundle {
    pub collider: ColliderShape,
    pub controller: CharacterController,
    pub collision_mask: CollisionMask,
    pub sensor_shape: ColliderShape,
    pub movement: MovementBundle,
    pub rotation_locked: bool,
}

/// The ground-probe sensor: the collider scaled to 99 percent.
pub open spec fn spec_sensor_of(c: ColliderShape) -> ColliderShape {
    ColliderShape { half_x: (c.half_x * 99 / 100) as i64, half_y: (c.half_y * 99 / 100) as i64 }
}

impl CharacterControllerBundle {
    /// A controller bundle around the given collider and layers, with
    /// the sensor shape shrunk to 99 percent of the collider and all
    /// movement tunables zeroed; callers install real tunables by
    /// replacing `movement`.
    pub fn new(collider: ColliderShape, collision_mask: CollisionMask) -> (r:
        CharacterControllerBundle)
        requires
            spec_shape_wf(collider),
        ensures
            r.collider == collider,
            r.collision_mask == collision_mask,
            r.sensor_shape == spec_sensor_of(collider),
            r.movement == (MovementBundle {
                acceleration: MovementAcceleration(0),
                damping: MovementDampingFactor(0),
                jump_impulse: JumpPower(0),
                max_jump_height: MaxJumpHeight(100_000),
                max_slope_angle: MaxSlopeAngle(0),
            }),
            r.rotation_locked,
    {
        let sensor_shape = ColliderShape {
            half_x: collider.half_x * 99 / 100,
            half_y: collider.half_y * 99 / 100,
        };
        CharacterControllerBundle {
            collider,
            controller: CharacterController,
            collision_mask,
            sensor_shape,
            movement: MovementBundle::new(0, 0, 0, 0, 100_000),
            rotation_locked: true,
        }
    }
}

impl From<CharacterCollider> for CharacterControllerBundle {
    /// The full controller bundle of an archetype: its shape and layers
    /// with the stock zeroed tunables.
    fn from(value: CharacterCollider) -> (r: CharacterControllerBundle) {
        match value {
            CharacterCollider::Player => CharacterControllerBundle::new(
                ColliderShape::from(CharacterCollider::Player),
                CollisionMask::from(CharacterCollider::Player),
            ),
        }
    }
}

impl vstd::std_specs::convert::FromSpecImpl<CharacterCollider> for CharacterControllerBundle {
    open spec fn obeys_from_spec() -> bool {
        true
    }

    open spec fn from_spec(value: CharacterCollider) -> CharacterControllerBundle {
        CharacterControllerBundle {
            collider: ColliderShape { half_x: 4_000, half_y: 6_500 },
            controller: CharacterController,
            collision_mask: CollisionMask {
                memberships: PLAYER_LAYER,
                filters: WALL_LAYER | INTERACTIBLE_LAYER | CHECKPOINT_LAYER,
            },
            sensor_shape: spec_sensor_of(ColliderShape { half_x: 4_000, half_y: 6_500 }),
            movement: MovementBundle {
                acceleration: MovementAcceleration(0),
                damping: MovementDampingFactor(0),
                jump_impulse: JumpPower(0),
                max_jump_height: MaxJumpHeight(100_000),
                max_slope_angle: MaxSlopeAngle(0),
            },
            rotation_locked: true,
        }
    }
}

/// The full simulation state of one character.  `pos`, `vel` and
/// `grounded` are the rollback fields; everything else is immutable for
/// the character's lifetime.
#[derive(Clone, Copy, PartialEq, Eq, Structural, Debug)]
pub struct CharacterState {
    pub pos: FxVec2,
    pub vel: FxVec2,
    pub grounded: bool,
    pub collider: ColliderShape,
    pub sensor: ColliderShape,
    pub movement: MovementBundle,
}

/// A character the simulation accepts: position and velocity inside the
/// representable world, well-formed shapes and tunables.
pub open spec fn spec_char_wf(c: CharacterState) -> bool {
    &&& -COORD_LIMIT <= c.pos.x <= COORD_LIMIT
    &&& -COORD_LIMIT <= c.pos.y <= COORD_LIMIT
    &&& -VEL_LIMIT <= c.vel.x <= VEL_LIMIT
    &&& -VEL_LIMIT <= c.vel.y <= VEL_LIMIT
    &&& spec_shape_wf(c.collider)
    &&& 0 <= c.sensor.half_x <= EXTENT_LIMIT
    &&& 0 <= c.sensor.half_y <= EXTENT_LIMIT
    &&& spec_bundle_wf(c.movement)
}

impl CharacterState {
    /// Spawn a character at rest at the given position, airborne, with
    /// the given controller bundle and tunables.
    pub fn spawn(pos: FxVec2, bundle: CharacterControllerBundle, movement: MovementBundle) -> (r:
        CharacterState)
        requires
            -COORD_LIMIT <= pos.x <= COORD_LIMIT,
            -COORD_LIMIT <= pos.y <= COORD_LIMIT,
            spec_shape_wf(bundle.collider),
            0 <= bundle.sensor_shape.half_x <= EXTENT_LIMIT,
            0 <= bundle.sensor_shape.half_y <= EXTENT_LIMIT,
            spec_bundle_wf(movement),
        ensures
            r.pos == pos,
            r.vel == (FxVec2 { x: 0, y: 0 }),
            !r.grounded,
            r.collider == bundle.collider,
            r.sensor == bundle.sensor_shape,
            r.movement == movement,
            spec_char_wf(r),
    {
        CharacterState {
            pos,
            vel: FxVec2 { x: 0, y: 0 },
            grounded: false,
            collider: bundle.collider,
            sensor: bundle.sensor_shape,
            movement,
        }
    }
}

} // verus!
