//! The rollback state registry.
//!
//! [`WorldState`] holds exactly the state the simulation is allowed to
//! touch: every character's rollback fields, the global gravity vector
//! and the pause flag of the simulation clock.  Nothing else in the
//! process may influence a tick, so snapshotting and restoring a
//! `WorldState` restores the simulation bit for bit — the invariant the
//! whole rollback scheme rests on.
//!
//! [`step_world`] is the one composed tick: decode inputs into events,
//! move, damp, gravity, integrate, resolve collisions against the
//! level, probe for ground.  Its result is a pure function of the world,
//! the per-peer input frames, the level and the tick rate; the grounded
//! flag is computed from the post-resolve position at the end of the
//! tick, so it describes the ground under the character one tick late
//! (a deliberate one-tick grace period, covered by the tests).

use vstd::prelude::*;

use crate::character::CharacterState;
use crate::character::Player;
use crate::character::spec_char_wf;
use crate::collision::gen_contacts;
use crate::collision::kinematic_controller_collisions;
use crate::collision::spec_gen_contacts;
use crate::collision::spec_resolve_all;
use crate::geometry::StaticGeometry;
use crate::geometry::spec_geom_wf;
use crate::geometry::StaticRect;
use crate::input::InputFrame;
use crate::math::FxVec2;
use crate::math::MAX_TICK_RATE;
use crate::math::VEL_LIMIT;
use crate::sim::apply_gravity;
use crate::sim::apply_movement_damping;
use crate::sim::flatten_events;
use crate::sim::integrate_positions;
use crate::sim::lemma_events_actions_wf;
use crate::sim::lemma_flatten_wf;
use crate::sim::move_players;
use crate::sim::probe_players;
use crate::sim::process_inputs;
use crate::sim::spec_damp_players;
use crate::sim::spec_flatten_events;
use crate::sim::spec_gravity_players;
use crate::sim::spec_integrate_players;
use crate::sim::spec_move_players;
use crate::sim::spec_probe_players;
use crate::sim::spec_process_inputs;

verus! {

/// The default global gravity: straight down, 84 units per second
/// squared.
pub const DEFAULT_GRAVITY_Y: i64 = -84_000;

/// All rollback state: the characters' mutable fields (with their
/// immutable tunables), the global gravity vector, and the simulation
/// clock's pause flag.
pub struct WorldState {
    pub characters: Vec<CharacterState>,
    pub gravity: FxVec2,
    pub paused: bool,
}

/// The mathematical content of a world.
pub struct WorldModel {
    pub characters: Seq<CharacterState>,
    pub gravity: FxVec2,
    pub paused: bool,
}

impl View for WorldState {
    type V = WorldModel;

    open spec fn view(&self) -> WorldModel {
        WorldModel { characters: self.characters@, gravity: self.gravity, paused: self.paused }
    }
}

/// A world the simulation accepts: every character well-formed and a
/// bounded gravity vector.
pub open spec fn spec_world_wf(w: WorldModel) -> bool {
    &&& forall|i: int| 0 <= i < w.characters.len() ==> spec_char_wf(#[trigger] w.characters[i])
    &&& -VEL_LIMIT <= w.gravity.x <= VEL_LIMIT
    &&& -VEL_LIMIT <= w.gravity.y <= VEL_LIMIT
}

impl WorldState {
    /// A running (unpaused) world with the given characters and
    /// gravity.
    pub fn new(characters: Vec<CharacterState>, gravity: FxVec2) -> (r: WorldState)
        requires
            forall|i: int| 0 <= i < characters@.len() ==> spec_char_wf(#[trigger] characters@[i]),
            -VEL_LIMIT <= gravity.x <= VEL_LIMIT,
            -VEL_LIMIT <= gravity.y <= VEL_LIMIT,
        ensures
            r.characters@ == characters@,
            r.gravity == gravity,
            !r.paused,
            spec_world_wf(r@),
    {
        WorldState { characters, gravity, paused: false }
    }
}

/// Copy a character collection element by element.
fn copy_characters(v: &Vec<CharacterState>) -> (r: Vec<CharacterState>)
    ensures
        r@ == v@,
{
    let mut r: Vec<CharacterState> = Vec::new();
    let mut i: usize = 0;
    while i < v.len()
        invariant
            0 <= i <= v@.len(),
            r@ == v@.take(i as int),
        decreases v@.len() - i,
    {
        r.push(v[i]);
        proof {
            assert(v@.take(i + 1) =~= v@.take(i as int).push(v@[i as int]));
        }
        i += 1;
    }
    proof {
        assert(v@.take(v@.len() as int) =~= v@);
    }
    r
}

/// An opaque capture of all rollback state, keyed by the tick it was
/// taken before.
pub struct Snapshot {
    pub tick: usize,
    pub state: WorldState,
}

impl WorldState {
    /// Capture all rollback state.  Restoring the result reproduces
    /// this world exactly.
    pub fn snapshot(&self, tick: usize) -> (r: Snapshot)
        ensures
            r.tick == tick,
            r.state.characters@ == self.characters@,
            r.state.gravity == self.gravity,
            r.state.paused == self.paused,
    {
        Snapshot {
            tick,
            state: WorldState {
                characters: copy_characters(&self.characters),
                gravity: self.gravity,
                paused: self.paused,
            },
        }
    }

    /// Restore all rollback state from a snapshot, byte for byte.
    pub fn restore(&mut self, snap: &Snapshot)
        ensures
            final(self).characters@ == snap.state.characters@,
            final(self).gravity == snap.state.gravity,
            final(self).paused == snap.state.paused,
    {
        self.characters = copy_characters(&snap.state.characters);
        self.gravity = snap.state.gravity;
        self.paused = snap.state.paused;
    }
}

/// The canonical player list of a session: player `i` has handle `i`.
pub open spec fn spec_canonical_players(n: int) -> Seq<Player> {
    Seq::new(n as nat, |i: int| Player { handle: i as usize })
}

/// Build the canonical player list for `n` players.
pub fn canonical_players(n: usize) -> (r: Vec<Player>)
    ensures
        r@ == spec_canonical_players(n as int),
{
    let mut r: Vec<Player> = Vec::new();
    let mut i: usize = 0;
    while i < n
        invariant
            0 <= i <= n,
            r@ == spec_canonical_players(n as int).take(i as int),
        decreases n - i,
    {
        r.push(Player { handle: i });
        proof {
            assert(spec_canonical_players(n as int).take(i + 1) =~= spec_canonical_players(
                n as int,
            ).take(i as int).push(Player { handle: i }));
        }
        i += 1;
    }
    proof {
        assert(spec_canonical_players(n as int).take(n as int) =~= spec_canonical_players(n as int));
    }
    r
}

/// One full deterministic tick over the characters: decode the input
/// frames into events, move, damp, apply gravity, integrate, resolve
/// collisions against the level, and re-probe the ground.  A paused
/// world does not advance.
pub open spec fn spec_step_chars(
    chars: Seq<CharacterState>,
    inputs: Seq<InputFrame>,
    rects: Seq<StaticRect>,
    g: FxVec2,
    paused: bool,
    rate: int,
) -> Seq<CharacterState> {
    if paused {
        chars
    } else {
        let acts = spec_flatten_events(
            spec_process_inputs(inputs, spec_canonical_players(chars.len() as int)),
        );
        let c1 = spec_move_players(chars, acts, rate);
        let c2 = spec_damp_players(c1);
        let c3 = spec_gravity_players(c2, g, rate);
        let c4 = spec_integrate_players(c3, rate);
        let c5 = spec_resolve_all(c4, spec_gen_contacts(c4, rects), rate);
        spec_probe_players(c5, rects)
    }
}

/// Advance the world by one tick.  The result is a pure function of
/// the world, the input frames, the level and the tick rate — re-running
/// this step from a restored snapshot with the same inputs reproduces
/// the same world bit for bit, on every peer.
pub fn step_world(w: &mut WorldState, inputs: &Vec<InputFrame>, geom: &StaticGeometry, rate: u64)
    requires
        spec_world_wf(old(w)@),
        inputs@.len() == old(w).characters@.len(),
        spec_geom_wf(geom.rects@),
        1 <= rate <= MAX_TICK_RATE,
    ensures
        final(w).characters@ == spec_step_chars(
            old(w).characters@,
            inputs@,
            geom.rects@,
            old(w).gravity,
            old(w).paused,
            rate as int,
        ),
        final(w).gravity == old(w).gravity,
        final(w).paused == old(w).paused,
        spec_world_wf(final(w)@),
{
    if w.paused {
        return ;
    }
    let players = canonical_players(w.characters.len());
    let events = process_inputs(inputs, &players);
    let acts = flatten_events(&events);
    proof {
        lemma_events_actions_wf(inputs@, spec_canonical_players(old(w).characters@.len() as int));
        lemma_flatten_wf(
            spec_process_inputs(
                inputs@,
                spec_canonical_players(old(w).characters@.len() as int),
            ),
        );
    }
    let gravity = w.gravity;
    proof {
        assert forall|i: int|
            0 <= i < w.characters@.len() implies spec_char_wf(#[trigger] w.characters@[i]) by {
            assert(w@.characters[i] == w.characters@[i]);
            assert(spec_char_wf(w@.characters[i]));
        }
    }
    move_players(&mut w.characters, &acts, rate);
    apply_movement_damping(&mut w.characters);
    apply_gravity(&mut w.characters, gravity, rate);
    integrate_positions(&mut w.characters, rate);
    let manifolds = gen_contacts(&w.characters, geom);
    kinematic_controller_collisions(&mut w.characters, &manifolds, rate);
    probe_players(&mut w.characters, geom);
}

/// A whole run: the world stepped once per tick with that tick's input
/// frames, in order.
pub open spec fn spec_run(
    chars: Seq<CharacterState>,
    ticks: Seq<Seq<InputFrame>>,
    rects: Seq<StaticRect>,
    g: FxVec2,
    paused: bool,
    rate: int,
) -> Seq<CharacterState>
    decreases ticks.len(),
{
    if ticks.len() == 0 {
        chars
    } else {
        spec_run(
            spec_step_chars(chars, ticks.first(), rects, g, paused, rate),
            ticks.drop_first(),
            rects,
            g,
            paused,
            rate,
        )
    }
}

/// A step keeps the character count.
pub proof fn lemma_step_preserves_len(
    chars: Seq<CharacterState>,
    inputs: Seq<InputFrame>,
    rects: Seq<StaticRect>,
    g: FxVec2,
    paused: bool,
    rate: int,
)
    ensures
        spec_step_chars(chars, inputs, rects, g, paused, rate).len() == chars.len(),
{
    if !paused {
        let acts = spec_flatten_events(
            spec_process_inputs(inputs, spec_canonical_players(chars.len() as int)),
        );
        let c1 = spec_move_players(chars, acts, rate);
        let c2 = spec_damp_players(c1);
        let c3 = spec_gravity_players(c2, g, rate);
        let c4 = spec_integrate_players(c3, rate);
        lemma_resolve_preserves_len(c4, spec_gen_contacts(c4, rects), rate);
    }
}

/// Resolving manifolds keeps the character count.
pub proof fn lemma_resolve_preserves_len(
    chars: Seq<CharacterState>,
    ms: Seq<crate::collision::ManifoldModel>,
    rate: int,
)
    ensures
        spec_resolve_all(chars, ms, rate).len() == chars.len(),
    decreases ms.len(),
{
    if ms.len() > 0 {
        lemma_resolve_preserves_len(
            crate::collision::spec_apply_manifold(chars, ms.first(), rate),
            ms.drop_first(),
            rate,
        );
    }
}

} // verus!
