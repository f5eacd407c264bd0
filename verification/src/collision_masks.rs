//! Collision layer bits.
//!
//! Each collider belongs to a set of layers (its memberships) and
//! collides with a set of layers (its filters); both sets are packed
//! into one byte, one bit per layer.

use vstd::prelude::*;

verus! {

/// Layer bit for static level geometry.
pub const WALL_LAYER: u8 = 8;

/// Layer bit for player characters.
pub const PLAYER_LAYER: u8 = 4;

/// Layer bit for objects a player can interact with.
pub const INTERACTIBLE_LAYER: u8 = 2;

/// Layer bit for checkpoints.
pub const CHECKPOINT_LAYER: u8 = 1;

/// A named collision layer.
#[derive(Clone, Copy, PartialEq, Eq, Structural, Debug)]
pub enum LayerEnum {
    Wall,
    Player,
    Interactible,
    Checkpoint,
    NoLayer,
}

/// The bit a layer occupies in a packed mask.
pub open spec fn spec_layer_bit(layer: LayerEnum) -> u8 {
    match layer {
        LayerEnum::Wall => WALL_LAYER,
        LayerEnum::Player => PLAYER_LAYER,
        LayerEnum::Interactible => INTERACTIBLE_LAYER,
        LayerEnum::Checkpoint => CHECKPOINT_LAYER,
        LayerEnum::NoLayer => 0,
    }
}

impl LayerEnum {
    /// The bit this layer occupies in a packed mask.
    pub fn bit(self) -> (r: u8)
        ensures
            r == spec_layer_bit(self),
    {
        match self {
            LayerEnum::Wall => WALL_LAYER,
            LayerEnum::Player => PLAYER_LAYER,
            LayerEnum::Interactible => INTERACTIBLE_LAYER,
            LayerEnum::Checkpoint => CHECKPOINT_LAYER,
            LayerEnum::NoLayer => 0,
        }
    }
}

/// The memberships and filters of one collider, one bit per layer.
#[derive(Clone, Copy, PartialEq, Eq, Structural, Debug, Default)]
pub struct CollisionMask {
    pub memberships: u8,
    pub filters: u8,
}

} // verus!
