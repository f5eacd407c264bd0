//! Deterministic rollback-netcode simulation core for a peer-to-peer
//! multiplayer platformer.
//!
//! The crate keeps independently clocked peers in sync by exchanging
//! per-tick input bitmasks, stepping a shared kinematic character
//! simulation forward deterministically, and re-simulating history when a
//! mispredicted input arrives.  All simulation quantities are fixed-point
//! integers (thousandths of a world unit), so every step is bit-exact on
//! every peer and every platform; there is no floating point anywhere in
//! the state the rollback registry snapshots.

use vstd::prelude::*;

pub mod character;
pub mod checksum;
pub mod collision;
pub mod collision_masks;
pub mod desync;
pub mod geometry;
pub mod input;
pub mod laws;
pub mod math;
pub mod registry;
pub mod session;
pub mod sim;
pub mod spawn;

verus! {

/// Ticks per second the simulation is tuned for by default.
pub const TARGET_FPS: u64 = 60;

} // verus!
