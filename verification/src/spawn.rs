//! Spawn-point bookkeeping.
//!
//! The level loader hands the session a list of spawn locations; as
//! characters come to life they are paired with spawn points in a
//! fixed order (latest loaded first), so every peer places every
//! character identically.

use vstd::prelude::*;

use crate::math::FxVec2;

verus! {

/// The depth coordinate player sprites are placed at.
pub const PLAYER_Z: i64 = 9_000;

/// A spawn point's position in the level.
#[derive(Clone, Copy, PartialEq, Eq, Structural, Debug)]
pub struct SpawnLocation(pub FxVec2);

/// A request to place the character of the given player entity.
#[derive(Clone, Copy, PartialEq, Eq, Structural, Debug)]
pub struct SpawnPlayerEvent(pub usize);

/// The spawn bookkeeping: locations still available, the original
/// list they were loaded from, and the entities waiting to be placed.
pub struct PlayerSpawnState {
    pub loaded_spawns: Vec<FxVec2>,
    pub original_spawns: Vec<FxVec2>,
    pub players_waiting: Vec<usize>,
}

impl PlayerSpawnState {
    /// An empty spawn state.
    pub fn new() -> (r: PlayerSpawnState)
        ensures
            r.loaded_spawns@.len() == 0,
            r.original_spawns@.len() == 0,
            r.players_waiting@.len() == 0,
    {
        PlayerSpawnState {
            loaded_spawns: Vec::new(),
            original_spawns: Vec::new(),
            players_waiting: Vec::new(),
        }
    }

    /// Take the most recently loaded spawn location.  At least one
    /// location must be loaded.
    pub fn get_spawn(&mut self) -> (r: FxVec2)
        requires
            old(self).loaded_spawns@.len() > 0,
        ensures
            r == old(self).loaded_spawns@.last(),
            final(self).loaded_spawns@ == old(self).loaded_spawns@.drop_last(),
            final(self).original_spawns@ == old(self).original_spawns@,
            final(self).players_waiting@ == old(self).players_waiting@,
    {
        let r = self.loaded_spawns.pop();
        match r {
            Option::Some(v) => v,
            Option::None => {
                proof {
                    assert(false);
                }
                FxVec2 { x: 0, y: 0 }
            },
        }
    }
}

/// The assignments made by pairing waiting players with loaded spawn
/// locations, both taken from the most recently added end, until
/// either list runs out.
pub open spec fn spec_assignments(waiting: Seq<usize>, spawns: Seq<FxVec2>) -> Seq<
    (usize, FxVec2),
>
    decreases waiting.len(),
{
    if waiting.len() == 0 || spawns.len() == 0 {
        Seq::empty()
    } else {
        seq![(waiting.last(), spawns.last())] + spec_assignments(
            waiting.drop_last(),
            spawns.drop_last(),
        )
    }
}

/// Pair every waiting player with a loaded spawn location, in the
/// deterministic latest-first order, until either list runs out.
/// Returns the placements; the paired entries are consumed.
pub fn take_spawn_assignments(st: &mut PlayerSpawnState) -> (r: Vec<(usize, FxVec2)>)
    ensures
        r@ == spec_assignments(old(st).players_waiting@, old(st).loaded_spawns@),
        final(st).players_waiting@ == old(st).players_waiting@.take(
            old(st).players_waiting@.len() - r@.len(),
        ),
        final(st).loaded_spawns@ == old(st).loaded_spawns@.take(
            old(st).loaded_spawns@.len() - r@.len(),
        ),
        final(st).original_spawns@ == old(st).original_spawns@,
{
    let ghost w0 = st.players_waiting@;
    let ghost s0 = st.loaded_spawns@;
    let mut r: Vec<(usize, FxVec2)> = Vec::new();
    while st.players_waiting.len() > 0 && st.loaded_spawns.len() > 0
        invariant
            st.original_spawns@ == old(st).original_spawns@,
            st.players_waiting@.len() <= w0.len(),
            st.players_waiting@.len() >= w0.len() - r@.len(),
            r@.len() <= w0.len(),
            r@.len() <= s0.len(),
            st.players_waiting@ == w0.take(w0.len() - r@.len()),
            st.loaded_spawns@ == s0.take(s0.len() - r@.len()),
            spec_assignments(w0, s0) == r@ + spec_assignments(
                st.players_waiting@,
                st.loaded_spawns@,
            ),
        decreases st.players_waiting@.len(),
    {
        let p = match st.players_waiting.pop() {
            Option::Some(p) => p,
            Option::None => {
                proof {
                    assert(false);
                }
                0
            },
        };
        let s = st.get_spawn();
        proof {
            assert(w0.take(w0.len() - r@.len()).drop_last() =~= w0.take(w0.len() - (r@.len() + 1)));
            assert(s0.take(s0.len() - r@.len()).drop_last() =~= s0.take(s0.len() - (r@.len() + 1)));
        }
        r.push((p, s));
        proof {
            assert(spec_assignments(w0, s0) =~= r@ + spec_assignments(
                st.players_waiting@,
                st.loaded_spawns@,
            ));
        }
    }
    proof {
        assert(spec_assignments(st.players_waiting@, st.loaded_spawns@) =~= Seq::<
            (usize, FxVec2),
        >::empty());
        assert(r@ =~= spec_assignments(w0, s0));
    }
    r
}

} // verus!
