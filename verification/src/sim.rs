//! The deterministic per-tick character simulation.
//!
//! Each stage is a pure function of the character collection and the
//! decoded inputs for the tick, applied to every player in ascending
//! handle order.  Movement events carry decoded actions from the input
//! layer to the movement stage; when several events address the same
//! player, the last move wins and any jump counts, so the outcome is
//! independent of how events were batched.

use vstd::prelude::*;

use crate::character::CharacterState;
use crate::character::Player;
use crate::character::spec_char_wf;
use crate::geometry::StaticGeometry;
use crate::geometry::climbable;
use crate::geometry::probe_grounded;
use crate::geometry::spec_climbable;
use crate::geometry::spec_geom_wf;
use crate::geometry::spec_probe_grounded;
use crate::geometry::StaticRect;
use crate::input::InputFrame;
use crate::input::decode_direction;
use crate::input::decode_jump;
use crate::input::spec_decode_direction;
use crate::input::spec_decode_jump;
use crate::math::FxVec2;
use crate::math::MAX_TICK_RATE;
use crate::math::SCALE;
use crate::math::TUNABLE_LIMIT;
use crate::math::VEL_LIMIT;
use crate::math::clamp_coord;
use crate::math::clamp_vel;
use crate::math::div_trunc;
use crate::math::lemma_mul_bound;
use crate::math::spec_clamp_coord;
use crate::math::spec_clamp_vel;
use crate::math::spec_div_trunc;
use crate::math::spec_abs;

verus! {

/// Fastest horizontal speed input can drive a character to, in
/// fixed-point units per second.
pub const MAX_MOVE_SPEED: i64 = 20_000;

/// Horizontal share of a diagonal intent, in thousandths (the
/// fixed-point value of one over the square root of two).
pub const DIAGONAL_FACTOR: i64 = 707;

/// One decoded movement action.
#[derive(Clone, Copy, PartialEq, Eq, Structural, Debug)]
pub enum MovementAction {
    /// Move the given player along the given intent vector.
    Move(usize, FxVec2),
    /// Make the given player jump.
    Jump(usize),
}

/// The decoded actions of one player for one tick.
pub struct MovementEvent {
    pub handle: usize,
    pub player: usize,
    pub actions: Vec<MovementAction>,
}

/// The mathematical content of a movement event.
pub struct EventModel {
    pub handle: usize,
    pub player: usize,
    pub actions: Seq<MovementAction>,
}

impl View for MovementEvent {
    type V = EventModel;

    open spec fn view(&self) -> EventModel {
        EventModel { handle: self.handle, player: self.player, actions: self.actions@ }
    }
}

/// The models of a sequence of events.
pub open spec fn spec_events_model(s: Seq<MovementEvent>) -> Seq<EventModel> {
    s.map_values(|e: MovementEvent| e@)
}

/// An action the movement stage accepts: intent components are minus
/// one, zero or plus one in fixed point.
pub open spec fn spec_action_wf(a: MovementAction) -> bool {
    match a {
        MovementAction::Move(_, d) => {
            &&& (d.x == -SCALE || d.x == 0 || d.x == SCALE)
            &&& (d.y == -SCALE || d.y == 0 || d.y == SCALE)
        },
        MovementAction::Jump(_) => true,
    }
}

/// Whether every action of a sequence is acceptable.
pub open spec fn spec_actions_wf(s: Seq<MovementAction>) -> bool {
    forall|i: int| 0 <= i < s.len() ==> spec_action_wf(#[trigger] s[i])
}

/// The actions a connected player's mask decodes to: always its move
/// intent, plus a jump when the primary action bit is held.
pub open spec fn spec_actions_of_mask(handle: usize, mask: u8) -> Seq<MovementAction> {
    if spec_decode_jump(mask) {
        seq![
            MovementAction::Move(handle, spec_decode_direction(mask)),
            MovementAction::Jump(handle),
        ]
    } else {
        seq![MovementAction::Move(handle, spec_decode_direction(mask))]
    }
}

/// The events `process_inputs` emits: one per player whose input frame
/// is connected, in player order, carrying the decoded actions of the
/// player's mask.  Disconnected players emit nothing.
pub open spec fn spec_process_inputs(inputs: Seq<InputFrame>, players: Seq<Player>) -> Seq<
    EventModel,
>
    decreases players.len(),
{
    if players.len() == 0 {
        Seq::empty()
    } else {
        let rest = spec_process_inputs(inputs, players.drop_last());
        let p = players.last();
        if inputs[p.handle as int].connected {
            rest.push(
                EventModel {
                    handle: p.handle,
                    player: (players.len() - 1) as usize,
                    actions: spec_actions_of_mask(p.handle, inputs[p.handle as int].mask),
                },
            )
        } else {
            rest
        }
    }
}

/// Decode the per-peer input frames of one tick into movement events,
/// one per connected player, in player order.
pub fn process_inputs(inputs: &Vec<InputFrame>, players: &Vec<Player>) -> (r: Vec<MovementEvent>)
    requires
        forall|i: int| 0 <= i < players@.len() ==> (#[trigger] players@[i]).handle < inputs@.len(),
    ensures
        spec_events_model(r@) == spec_process_inputs(inputs@, players@),
{
    let mut r: Vec<MovementEvent> = Vec::new();
    let mut i: usize = 0;
    while i < players.len()
        invariant
            0 <= i <= players@.len(),
            forall|k: int|
                0 <= k < players@.len() ==> (#[trigger] players@[k]).handle < inputs@.len(),
            spec_events_model(r@) == spec_process_inputs(inputs@, players@.take(i as int)),
        decreases players@.len() - i,
    {
        let p = players[i];
        let frame = inputs[p.handle];
        if frame.connected {
            let mut actions: Vec<MovementAction> = Vec::new();
            actions.push(MovementAction::Move(p.handle, decode_direction(frame.mask)));
            if decode_jump(frame.mask) {
                actions.push(MovementAction::Jump(p.handle));
            }
            proof {
                assert(actions@ =~= spec_actions_of_mask(p.handle, frame.mask));
            }
            let ev = MovementEvent { handle: p.handle, player: i, actions };
            r.push(ev);
        }
        proof {
            assert(players@.take(i + 1).drop_last() =~= players@.take(i as int));
            assert(players@.take(i + 1).last() == players@[i as int]);
            assert(spec_events_model(r@) =~= spec_process_inputs(
                inputs@,
                players@.take(i + 1),
            ));
        }
        i += 1;
    }
    proof {
        assert(players@.take(players@.len() as int) =~= players@);
    }
    r
}

/// The actions of a sequence of events, flattened in order.
pub open spec fn spec_flatten_events(s: Seq<EventModel>) -> Seq<MovementAction>
    decreases s.len(),
{
    if s.len() == 0 {
        Seq::empty()
    } else {
        spec_flatten_events(s.drop_last()) + s.last().actions
    }
}

/// Flatten a batch of movement events into one action stream, keeping
/// event order and the order of actions within each event.
pub fn flatten_events(events: &Vec<MovementEvent>) -> (r: Vec<MovementAction>)
    ensures
        r@ == spec_flatten_events(spec_events_model(events@)),
{
    let mut r: Vec<MovementAction> = Vec::new();
    let mut i: usize = 0;
    while i < events.len()
        invariant
            0 <= i <= events@.len(),
            r@ == spec_flatten_events(spec_events_model(events@.take(i as int))),
        decreases events@.len() - i,
    {
        let n = events[i].actions.len();
        let mut j: usize = 0;
        while j < n
            invariant
                0 <= j <= n,
                0 <= i < events@.len(),
                n == events@[i as int].actions@.len(),
                r@ == spec_flatten_events(spec_events_model(events@.take(i as int)))
                    + events@[i as int].actions@.take(j as int),
            decreases n - j,
        {
            let a = events[i].actions[j];
            r.push(a);
            proof {
                assert(events@[i as int].actions@.take(j + 1) =~= events@[i as int].actions@.take(
                    j as int,
                ).push(a));
            }
            j += 1;
        }
        proof {
            assert(spec_events_model(events@.take(i + 1)).drop_last() =~= spec_events_model(
                events@.take(i as int),
            ));
            assert(spec_events_model(events@.take(i + 1)).last() == events@[i as int]@);
            assert(events@[i as int].actions@.take(n as int) =~= events@[i as int].actions@);
            assert(r@ =~= spec_flatten_events(spec_events_model(events@.take(i + 1))));
        }
        i += 1;
    }
    proof {
        assert(events@.take(events@.len() as int) =~= events@);
    }
    r
}

/// Every event decoded from input frames carries only well-formed
/// actions.
pub proof fn lemma_events_actions_wf(inputs: Seq<InputFrame>, players: Seq<Player>)
    ensures
        forall|e: int|
            0 <= e < spec_process_inputs(inputs, players).len() ==> spec_actions_wf(
                #[trigger] spec_process_inputs(inputs, players)[e].actions,
            ),
    decreases players.len(),
{
    if players.len() > 0 {
        lemma_events_actions_wf(inputs, players.drop_last());
        let evs = spec_process_inputs(inputs, players);
        let rest = spec_process_inputs(inputs, players.drop_last());
        let p = players.last();
        if inputs[p.handle as int].connected {
            let acts = spec_actions_of_mask(p.handle, inputs[p.handle as int].mask);
            assert(forall|k: int| 0 <= k < acts.len() ==> spec_action_wf(#[trigger] acts[k]));
            assert(forall|e: int|
                0 <= e < evs.len() ==> evs[e] == if e < rest.len() {
                    rest[e]
                } else {
                    evs.last()
                });
        }
    }
}

/// Flattening events whose actions are all well-formed yields a
/// well-formed action stream.
pub proof fn lemma_flatten_wf(events: Seq<EventModel>)
    requires
        forall|e: int|
            0 <= e < events.len() ==> spec_actions_wf(#[trigger] events[e].actions),
    ensures
        spec_actions_wf(spec_flatten_events(events)),
    decreases events.len(),
{
    if events.len() > 0 {
        assert(forall|e: int|
            0 <= e < events.drop_last().len() ==> spec_actions_wf(
                #[trigger] events.drop_last()[e].actions,
            ));
        lemma_flatten_wf(events.drop_last());
        assert(spec_actions_wf(events[events.len() - 1].actions));
        let flat = spec_flatten_events(events);
        let head = spec_flatten_events(events.drop_last());
        let tail = events.last().actions;
        assert(forall|k: int|
            0 <= k < flat.len() ==> #[trigger] flat[k] == if k < head.len() {
                head[k]
            } else {
                tail[k - head.len()]
            });
    }
}

/// The last move intent addressed to the given player in an action
/// stream, if any.
pub open spec fn spec_latest_move(acts: Seq<MovementAction>, h: usize) -> Option<FxVec2>
    decreases acts.len(),
{
    if acts.len() == 0 {
        None
    } else {
        match acts.last() {
            MovementAction::Move(hh, d) => {
                if hh == h {
                    Some(d)
                } else {
                    spec_latest_move(acts.drop_last(), h)
                }
            },
            MovementAction::Jump(_) => spec_latest_move(acts.drop_last(), h),
        }
    }
}

/// Whether any jump is addressed to the given player in an action
/// stream.
pub open spec fn spec_has_jump(acts: Seq<MovementAction>, h: usize) -> bool
    decreases acts.len(),
{
    if acts.len() == 0 {
        false
    } else {
        match acts.last() {
            MovementAction::Jump(hh) => hh == h || spec_has_jump(acts.drop_last(), h),
            MovementAction::Move(_, _) => spec_has_jump(acts.drop_last(), h),
        }
    }
}

/// A well-formed action stream only yields well-formed move intents.
pub proof fn lemma_latest_move_wf(acts: Seq<MovementAction>, h: usize)
    requires
        spec_actions_wf(acts),
    ensures
        match spec_latest_move(acts, h) {
            Some(d) => (d.x == -SCALE || d.x == 0 || d.x == SCALE) && (d.y == -SCALE || d.y == 0
                || d.y == SCALE),
            None => true,
        },
    decreases acts.len(),
{
    if acts.len() > 0 {
        assert(spec_action_wf(acts[acts.len() - 1]));
        assert(spec_actions_wf(acts.drop_last()));
        lemma_latest_move_wf(acts.drop_last(), h);
    }
}

/// Scan an action stream for the last move intent addressed to a
/// player.
pub fn latest_move_for(acts: &Vec<MovementAction>, h: usize) -> (r: Option<FxVec2>)
    ensures
        r == spec_latest_move(acts@, h),
{
    let mut r: Option<FxVec2> = None;
    let mut i: usize = 0;
    while i < acts.len()
        invariant
            0 <= i <= acts@.len(),
            r == spec_latest_move(acts@.take(i as int), h),
        decreases acts@.len() - i,
    {
        match acts[i] {
            MovementAction::Move(hh, d) => {
                if hh == h {
                    r = Some(d);
                }
            },
            MovementAction::Jump(_) => {},
        }
        proof {
            assert(acts@.take(i + 1).drop_last() =~= acts@.take(i as int));
            assert(acts@.take(i + 1).last() == acts@[i as int]);
        }
        i += 1;
    }
    proof {
        assert(acts@.take(acts@.len() as int) =~= acts@);
    }
    r
}

/// Scan an action stream for a jump addressed to a player.
pub fn has_jump_for(acts: &Vec<MovementAction>, h: usize) -> (r: bool)
    ensures
        r == spec_has_jump(acts@, h),
{
    let mut r: bool = false;
    let mut i: usize = 0;
    while i < acts.len()
        invariant
            0 <= i <= acts@.len(),
            r == spec_has_jump(acts@.take(i as int), h),
        decreases acts@.len() - i,
    {
        match acts[i] {
            MovementAction::Jump(hh) => {
                if hh == h {
                    r = true;
                }
            },
            MovementAction::Move(_, _) => {},
        }
        proof {
            assert(acts@.take(i + 1).drop_last() =~= acts@.take(i as int));
            assert(acts@.take(i + 1).last() == acts@[i as int]);
        }
        i += 1;
    }
    proof {
        assert(acts@.take(acts@.len() as int) =~= acts@);
    }
    r
}

/// The player a movement action addresses.
pub open spec fn spec_action_handle(a: MovementAction) -> usize {
    match a {
        MovementAction::Move(h, _) => h,
        MovementAction::Jump(h) => h,
    }
}

/// The last move in a concatenation comes from the right part if it
/// mentions the player at all, else from the left.
pub proof fn lemma_latest_move_concat(a: Seq<MovementAction>, b: Seq<MovementAction>, h: usize)
    ensures
        spec_latest_move(a + b, h) == (match spec_latest_move(b, h) {
            Option::Some(d) => Option::Some(d),
            Option::None => spec_latest_move(a, h),
        }),
    decreases b.len(),
{
    if b.len() == 0 {
        assert(a + b =~= a);
    } else {
        assert((a + b).drop_last() =~= a + b.drop_last());
        assert((a + b).last() == b.last());
        lemma_latest_move_concat(a, b.drop_last(), h);
    }
}

/// A concatenation holds a jump for a player exactly when either part
/// does.
pub proof fn lemma_has_jump_concat(a: Seq<MovementAction>, b: Seq<MovementAction>, h: usize)
    ensures
        spec_has_jump(a + b, h) == (spec_has_jump(a, h) || spec_has_jump(b, h)),
    decreases b.len(),
{
    if b.len() == 0 {
        assert(a + b =~= a);
    } else {
        assert((a + b).drop_last() =~= a + b.drop_last());
        assert((a + b).last() == b.last());
        lemma_has_jump_concat(a, b.drop_last(), h);
    }
}

/// An action stream that never mentions a player neither moves nor
/// jumps it.
pub proof fn lemma_no_mention(acts: Seq<MovementAction>, h: usize)
    requires
        forall|k: int| 0 <= k < acts.len() ==> spec_action_handle(#[trigger] acts[k]) != h,
    ensures
        spec_latest_move(acts, h) is None,
        !spec_has_jump(acts, h),
    decreases acts.len(),
{
    if acts.len() > 0 {
        assert(spec_action_handle(acts[acts.len() - 1]) != h);
        assert(forall|k: int|
            0 <= k < acts.drop_last().len() ==> spec_action_handle(
                #[trigger] acts.drop_last()[k],
            ) != h);
        lemma_no_mention(acts.drop_last(), h);
    }
}

/// Every action decoded from the canonical player list addresses a
/// player with a handle below the player count.
pub proof fn lemma_flatten_handles(inputs: Seq<InputFrame>, n: int)
    requires
        0 <= n <= usize::MAX,
    ensures
        forall|k: int|
            0 <= k < spec_flatten_events(
                spec_process_inputs(inputs, crate::registry::spec_canonical_players(n)),
            ).len() ==> spec_action_handle(
                #[trigger] spec_flatten_events(
                    spec_process_inputs(inputs, crate::registry::spec_canonical_players(n)),
                )[k],
            ) < n,
    decreases n,
{
    let players = crate::registry::spec_canonical_players(n);
    if n == 0 {
        assert(players.len() == 0);
        assert(spec_flatten_events(spec_process_inputs(inputs, players)) =~= Seq::<
            MovementAction,
        >::empty());
    } else {
        lemma_flatten_handles(inputs, n - 1);
        assert(players.len() == n);
        assert(players[n - 1] == (Player { handle: (n - 1) as usize }));
        assert(players.drop_last() =~= crate::registry::spec_canonical_players(n - 1));
        let rest = spec_process_inputs(inputs, players.drop_last());
        let p = players.last();
        assert(p.handle == n - 1);
        let evs = spec_process_inputs(inputs, players);
        let flat_rest = spec_flatten_events(rest);
        if inputs[p.handle as int].connected {
            let ev = EventModel {
                handle: p.handle,
                player: (players.len() - 1) as usize,
                actions: spec_actions_of_mask(p.handle, inputs[p.handle as int].mask),
            };
            assert(evs == rest.push(ev));
            assert(evs.drop_last() =~= rest);
            assert(evs.last() == ev);
            let flat = spec_flatten_events(evs);
            assert(flat == flat_rest + ev.actions);
            assert(forall|k: int|
                0 <= k < ev.actions.len() ==> spec_action_handle(#[trigger] ev.actions[k]) < n);
            assert(forall|k: int|
                0 <= k < flat.len() ==> spec_action_handle(#[trigger] flat[k]) < n);
        } else {
            assert(evs == rest);
        }
    }
}

/// What the decoded action list of one mask holds for a player: the
/// mask's own direction and jump bit for the player it belongs to,
/// nothing for anyone else.
pub proof fn lemma_actions_of_mask(handle: usize, mask: u8, h: usize)
    ensures
        spec_latest_move(spec_actions_of_mask(handle, mask), h) == (if handle == h {
            Option::Some(spec_decode_direction(mask))
        } else {
            Option::<FxVec2>::None
        }),
        spec_has_jump(spec_actions_of_mask(handle, mask), h) == (handle == h && spec_decode_jump(
            mask,
        )),
{
    let acts = spec_actions_of_mask(handle, mask);
    let mv = MovementAction::Move(handle, spec_decode_direction(mask));
    let empty = Seq::<MovementAction>::empty();
    assert(spec_latest_move(empty, h) is None);
    assert(!spec_has_jump(empty, h));
    assert(seq![mv].drop_last() =~= empty);
    assert(seq![mv].last() == mv);
    assert(spec_latest_move(seq![mv], h) == (if handle == h {
        Option::Some(spec_decode_direction(mask))
    } else {
        Option::<FxVec2>::None
    }));
    assert(!spec_has_jump(seq![mv], h));
    if spec_decode_jump(mask) {
        let jp = MovementAction::Jump(handle);
        assert(acts == seq![mv, jp]);
        assert(acts.drop_last() =~= seq![mv]);
        assert(acts.last() == jp);
        assert(spec_has_jump(acts, h) == (handle == h || spec_has_jump(seq![mv], h)));
        assert(spec_latest_move(acts, h) == (if handle == h {
            Option::Some(spec_decode_direction(mask))
        } else {
            Option::<FxVec2>::None
        }));
    } else {
        assert(acts == seq![mv]);
    }
}

/// What the canonical event pipeline hands each player: a connected
/// player's frame decodes to exactly its direction intent and its
/// jump bit; a disconnected player gets nothing.
pub proof fn lemma_direct_decode(inputs: Seq<InputFrame>, n: int, h: usize)
    requires
        0 <= h < n <= usize::MAX,
    ensures
        spec_latest_move(
            spec_flatten_events(
                spec_process_inputs(inputs, crate::registry::spec_canonical_players(n)),
            ),
            h,
        ) == (if inputs[h as int].connected {
            Option::Some(spec_decode_direction(inputs[h as int].mask))
        } else {
            Option::<FxVec2>::None
        }),
        spec_has_jump(
            spec_flatten_events(
                spec_process_inputs(inputs, crate::registry::spec_canonical_players(n)),
            ),
            h,
        ) == (inputs[h as int].connected && spec_decode_jump(inputs[h as int].mask)),
    decreases n,
{
    let players = crate::registry::spec_canonical_players(n);
    assert(players.len() == n);
    assert(players[n - 1] == (Player { handle: (n - 1) as usize }));
    assert(players.drop_last() =~= crate::registry::spec_canonical_players(n - 1));
    let rest = spec_process_inputs(inputs, players.drop_last());
    let p = players.last();
    assert(p.handle == n - 1);
    let evs = spec_process_inputs(inputs, players);
    let flat_rest = spec_flatten_events(rest);
    if inputs[p.handle as int].connected {
        let mask = inputs[p.handle as int].mask;
        let acts = spec_actions_of_mask(p.handle, mask);
        let ev = EventModel {
            handle: p.handle,
            player: (players.len() - 1) as usize,
            actions: acts,
        };
        assert(evs == rest.push(ev));
        assert(evs.drop_last() =~= rest);
        assert(evs.last() == ev);
        let flat = spec_flatten_events(evs);
        assert(flat == flat_rest + acts);
        lemma_actions_of_mask(p.handle, mask, h);
        lemma_latest_move_concat(flat_rest, acts, h);
        lemma_has_jump_concat(flat_rest, acts, h);
        if h == n - 1 {
            lemma_flatten_handles(inputs, n - 1);
            lemma_no_mention(flat_rest, h);
        } else {
            lemma_direct_decode(inputs, n - 1, h);
        }
    } else {
        assert(evs == rest);
        if h == n - 1 {
            lemma_flatten_handles(inputs, n - 1);
            lemma_no_mention(flat_rest, h);
        } else {
            lemma_direct_decode(inputs, n - 1, h);
        }
    }
}

/// The horizontal acceleration step applied to one character by a move
/// intent: accelerate toward the intent at the character's acceleration
/// tunable over one tick, then clamp so the updated speed never exceeds
/// [`MAX_MOVE_SPEED`] in the direction of travel (the opposite
/// direction is unaffected).  A diagonal intent contributes its
/// normalized horizontal share.  A zero intent, or no intent, changes
/// nothing.
pub open spec fn spec_apply_move(c: CharacterState, mv: Option<FxVec2>, rate: int)
    -> CharacterState {
    match mv {
        Option::None => c,
        Option::Some(dir) => {
            if dir.x == 0 && dir.y == 0 {
                c
            } else {
                let w = if dir.x != 0 && dir.y != 0 {
                    DIAGONAL_FACTOR as int
                } else {
                    SCALE as int
                };
                let mag = (w * c.movement.acceleration.0 * 10) / ((SCALE as int) * rate);
                let moved = if dir.x > 0 {
                    c.vel.x + mag
                } else if dir.x < 0 {
                    c.vel.x - mag
                } else {
                    c.vel.x as int
                };
                let nv = if dir.x > 0 && moved > MAX_MOVE_SPEED {
                    MAX_MOVE_SPEED as int
                } else if dir.x < 0 && moved < -MAX_MOVE_SPEED {
                    -MAX_MOVE_SPEED as int
                } else {
                    moved
                };
                CharacterState { vel: FxVec2 { x: nv as i64, y: c.vel.y }, ..c }
            }
        },
    }
}

/// Accelerate one character toward a move intent.
pub fn apply_move_char(c: CharacterState, mv: Option<FxVec2>, rate: u64) -> (r: CharacterState)
    requires
        spec_char_wf(c),
        1 <= rate <= MAX_TICK_RATE,
        match mv {
            Option::Some(d) => (d.x == -SCALE || d.x == 0 || d.x == SCALE) && (d.y == -SCALE
                || d.y == 0 || d.y == SCALE),
            Option::None => true,
        },
    ensures
        r == spec_apply_move(c, mv, rate as int),
        spec_char_wf(r),
{
    match mv {
        Option::None => c,
        Option::Some(dir) => {
            if dir.x == 0 && dir.y == 0 {
                c
            } else {
                let w: i64 = if dir.x != 0 && dir.y != 0 {
                    DIAGONAL_FACTOR
                } else {
                    SCALE
                };
                proof {
                    lemma_mul_bound(
                        w as int,
                        c.movement.acceleration.0 as int,
                        SCALE as int,
                        TUNABLE_LIMIT as int,
                    );
                }
                let mag: i64 = w * c.movement.acceleration.0 * 10 / (SCALE * (rate as i64));
                proof {
                    vstd::arithmetic::div_mod::lemma_div_pos_is_pos(
                        w * c.movement.acceleration.0 * 10,
                        SCALE * (rate as i64),
                    );
                    vstd::arithmetic::div_mod::lemma_div_is_ordered_by_denominator(
                        w * c.movement.acceleration.0 * 10,
                        SCALE as int,
                        SCALE * (rate as i64),
                    );
                }
                let moved: i64 = if dir.x > 0 {
                    c.vel.x + mag
                } else if dir.x < 0 {
                    c.vel.x - mag
                } else {
                    c.vel.x
                };
                let nv: i64 = if dir.x > 0 && moved > MAX_MOVE_SPEED {
                    MAX_MOVE_SPEED
                } else if dir.x < 0 && moved < -MAX_MOVE_SPEED {
                    -MAX_MOVE_SPEED
                } else {
                    moved
                };
                CharacterState { vel: FxVec2 { x: nv, y: c.vel.y }, ..c }
            }
        },
    }
}

/// The jump step: a jump action while grounded sets the vertical speed
/// to the jump impulse scaled by the tick rate; otherwise nothing
/// changes and gravity keeps ownership of the vertical axis.
pub open spec fn spec_apply_jump(c: CharacterState, jump: bool, rate: int) -> CharacterState {
    if jump && c.grounded {
        CharacterState {
            vel: FxVec2 { x: c.vel.x, y: ((c.movement.jump_impulse.0 * 60) / rate) as i64 },
            ..c
        }
    } else {
        c
    }
}

/// Apply a jump action to one character.
pub fn apply_jump_char(c: CharacterState, jump: bool, rate: u64) -> (r: CharacterState)
    requires
        spec_char_wf(c),
        1 <= rate <= MAX_TICK_RATE,
    ensures
        r == spec_apply_jump(c, jump, rate as int),
        spec_char_wf(r),
{
    if jump && c.grounded {
        let vy: i64 = c.movement.jump_impulse.0 * 60 / (rate as i64);
        proof {
            vstd::arithmetic::div_mod::lemma_div_pos_is_pos(
                c.movement.jump_impulse.0 * 60,
                rate as int,
            );
            vstd::arithmetic::div_mod::lemma_div_is_ordered_by_denominator(
                c.movement.jump_impulse.0 * 60,
                1,
                rate as int,
            );
            vstd::arithmetic::div_mod::lemma_div_basics(c.movement.jump_impulse.0 * 60);
        }
        CharacterState { vel: FxVec2 { x: c.vel.x, y: vy }, ..c }
    } else {
        c
    }
}

/// The damping step: every tick, regardless of input, the horizontal
/// speed is multiplied by the damping factor in thousandths, rounding
/// toward zero, so it decays exponentially to rest.
pub open spec fn spec_apply_damping(c: CharacterState) -> CharacterState {
    CharacterState {
        vel: FxVec2 {
            x: spec_div_trunc(c.vel.x * c.movement.damping.0, SCALE as int) as i64,
            y: c.vel.y,
        },
        ..c
    }
}

/// Damping never enlarges the horizontal speed.
pub proof fn lemma_damping_shrinks(v: int, d: int)
    requires
        0 <= d <= 999,
        -VEL_LIMIT <= v <= VEL_LIMIT,
    ensures
        -VEL_LIMIT <= spec_div_trunc(v * d, SCALE as int) <= VEL_LIMIT,
        spec_abs(spec_div_trunc(v * d, SCALE as int)) <= spec_abs(v),
{
    if v >= 0 {
        vstd::arithmetic::mul::lemma_mul_inequality(d, SCALE as int, v);
        vstd::arithmetic::mul::lemma_mul_is_commutative(d, v);
        vstd::arithmetic::mul::lemma_mul_is_commutative(SCALE as int, v);
        vstd::arithmetic::mul::lemma_mul_nonnegative(v, d);
        vstd::arithmetic::div_mod::lemma_div_is_ordered(v * d, v * (SCALE as int), SCALE as int);
        vstd::arithmetic::div_mod::lemma_div_multiples_vanish(v, SCALE as int);
        vstd::arithmetic::mul::lemma_mul_is_commutative(v, SCALE as int);
        vstd::arithmetic::div_mod::lemma_div_pos_is_pos(v * d, SCALE as int);
    } else {
        vstd::arithmetic::mul::lemma_mul_inequality(d, SCALE as int, -v);
        vstd::arithmetic::mul::lemma_mul_is_commutative(d, -v);
        vstd::arithmetic::mul::lemma_mul_is_commutative(SCALE as int, -v);
        vstd::arithmetic::mul::lemma_mul_nonnegative(-v, d);
        vstd::arithmetic::div_mod::lemma_div_is_ordered(
            (-v) * d,
            (-v) * (SCALE as int),
            SCALE as int,
        );
        vstd::arithmetic::div_mod::lemma_div_multiples_vanish(-v, SCALE as int);
        vstd::arithmetic::mul::lemma_mul_is_commutative(-v, SCALE as int);
        vstd::arithmetic::div_mod::lemma_div_pos_is_pos((-v) * d, SCALE as int);
        assert(v * d == -((-v) * d)) by (nonlinear_arith);
    }
}

/// Damp the horizontal speed of one character.
pub fn apply_damping_char(c: CharacterState) -> (r: CharacterState)
    requires
        spec_char_wf(c),
    ensures
        r == spec_apply_damping(c),
        spec_char_wf(r),
{
    proof {
        lemma_mul_bound(c.vel.x as int, c.movement.damping.0 as int, VEL_LIMIT as int, 999);
        lemma_damping_shrinks(c.vel.x as int, c.movement.damping.0 as int);
    }
    let vx: i64 = div_trunc(c.vel.x * c.movement.damping.0, SCALE);
    CharacterState { vel: FxVec2 { x: vx, y: c.vel.y }, ..c }
}

/// The gravity step: an airborne character gains one tick of the global
/// gravity vector, saturating at the velocity limit; a grounded one is
/// unchanged.
pub open spec fn spec_apply_gravity(c: CharacterState, g: FxVec2, rate: int) -> CharacterState {
    if c.grounded {
        c
    } else {
        CharacterState {
            vel: FxVec2 {
                x: spec_clamp_vel(c.vel.x + spec_div_trunc(g.x as int, rate)) as i64,
                y: spec_clamp_vel(c.vel.y + spec_div_trunc(g.y as int, rate)) as i64,
            },
            ..c
        }
    }
}

/// Apply one tick of gravity to one character.
pub fn apply_gravity_char(c: CharacterState, g: FxVec2, rate: u64) -> (r: CharacterState)
    requires
        spec_char_wf(c),
        1 <= rate <= MAX_TICK_RATE,
        -VEL_LIMIT <= g.x <= VEL_LIMIT,
        -VEL_LIMIT <= g.y <= VEL_LIMIT,
    ensures
        r == spec_apply_gravity(c, g, rate as int),
        spec_char_wf(r),
{
    if c.grounded {
        c
    } else {
        proof {
            crate::math::lemma_div_trunc_shrinks(g.x as int, rate as int);
            crate::math::lemma_div_trunc_shrinks(g.y as int, rate as int);
        }
        let vx: i64 = clamp_vel(c.vel.x + div_trunc(g.x, rate as i64));
        let vy: i64 = clamp_vel(c.vel.y + div_trunc(g.y, rate as i64));
        CharacterState { vel: FxVec2 { x: vx, y: vy }, ..c }
    }
}

/// The integration step: one tick of the velocity is added to the
/// position, saturating at the world bounds.
pub open spec fn spec_integrate(c: CharacterState, rate: int) -> CharacterState {
    CharacterState {
        pos: FxVec2 {
            x: spec_clamp_coord(c.pos.x + spec_div_trunc(c.vel.x as int, rate)) as i64,
            y: spec_clamp_coord(c.pos.y + spec_div_trunc(c.vel.y as int, rate)) as i64,
        },
        ..c
    }
}

/// Integrate one character's position by one tick.
pub fn integrate_char(c: CharacterState, rate: u64) -> (r: CharacterState)
    requires
        spec_char_wf(c),
        1 <= rate <= MAX_TICK_RATE,
    ensures
        r == spec_integrate(c, rate as int),
        spec_char_wf(r),
{
    proof {
        crate::math::lemma_div_trunc_shrinks(c.vel.x as int, rate as int);
        crate::math::lemma_div_trunc_shrinks(c.vel.y as int, rate as int);
    }
    let px: i64 = clamp_coord(c.pos.x + div_trunc(c.vel.x, rate as i64));
    let py: i64 = clamp_coord(c.pos.y + div_trunc(c.vel.y, rate as i64));
    CharacterState { pos: FxVec2 { x: px, y: py }, ..c }
}

/// The movement of one player over one tick: the last move intent
/// addressed to it, then any jump addressed to it.
pub open spec fn spec_move_one(
    c: CharacterState,
    mv: Option<FxVec2>,
    jump: bool,
    rate: int,
) -> CharacterState {
    spec_apply_jump(spec_apply_move(c, mv, rate), jump, rate)
}

/// The movement stage over the whole collection: every player, in
/// ascending handle order, moves by the actions addressed to it.
pub open spec fn spec_move_players(
    chars: Seq<CharacterState>,
    acts: Seq<MovementAction>,
    rate: int,
) -> Seq<CharacterState> {
    Seq::new(
        chars.len(),
        |i: int|
            spec_move_one(
                chars[i],
                spec_latest_move(acts, i as usize),
                spec_has_jump(acts, i as usize),
                rate,
            ),
    )
}

/// Apply a batch of decoded movement actions to the players.  Player
/// `i` of the collection has handle `i`; when several move actions
/// address one player the last wins, and any jump addressed to it
/// counts.
pub fn move_players(chars: &mut Vec<CharacterState>, acts: &Vec<MovementAction>, rate: u64)
    requires
        forall|i: int| 0 <= i < old(chars)@.len() ==> spec_char_wf(#[trigger] old(chars)@[i]),
        spec_actions_wf(acts@),
        1 <= rate <= MAX_TICK_RATE,
    ensures
        final(chars)@ == spec_move_players(old(chars)@, acts@, rate as int),
        forall|i: int| 0 <= i < final(chars)@.len() ==> spec_char_wf(#[trigger] final(chars)@[i]),
{
    let ghost chars0 = chars@;
    let n = chars.len();
    let mut i: usize = 0;
    while i < n
        invariant
            0 <= i <= n,
            n == chars0.len(),
            chars@.len() == chars0.len(),
            spec_actions_wf(acts@),
            1 <= rate <= MAX_TICK_RATE,
            forall|j: int| 0 <= j < chars0.len() ==> spec_char_wf(#[trigger] chars0[j]),
            forall|j: int| i <= j < chars0.len() ==> chars@[j] == chars0[j],
            forall|j: int|
                0 <= j < i ==> chars@[j] == spec_move_one(
                    chars0[j],
                    spec_latest_move(acts@, j as usize),
                    spec_has_jump(acts@, j as usize),
                    rate as int,
                ),
            forall|j: int| 0 <= j < i ==> spec_char_wf(#[trigger] chars@[j]),
        decreases n - i,
    {
        let mv = latest_move_for(acts, i);
        let jm = has_jump_for(acts, i);
        proof {
            lemma_latest_move_wf(acts@, i);
        }
        let c = chars[i];
        proof {
            assert(chars@[i as int] == chars0[i as int]);
        }
        let c1 = apply_move_char(c, mv, rate);
        let c2 = apply_jump_char(c1, jm, rate);
        chars.set(i, c2);
        i += 1;
    }
    proof {
        assert(chars@ =~= spec_move_players(chars0, acts@, rate as int));
    }
}

/// The damping stage over the whole collection.
pub open spec fn spec_damp_players(chars: Seq<CharacterState>) -> Seq<CharacterState> {
    Seq::new(chars.len(), |i: int| spec_apply_damping(chars[i]))
}

/// Damp every player's horizontal speed by one tick.
pub fn apply_movement_damping(chars: &mut Vec<CharacterState>)
    requires
        forall|i: int| 0 <= i < old(chars)@.len() ==> spec_char_wf(#[trigger] old(chars)@[i]),
    ensures
        final(chars)@ == spec_damp_players(old(chars)@),
        forall|i: int| 0 <= i < final(chars)@.len() ==> spec_char_wf(#[trigger] final(chars)@[i]),
{
    let ghost chars0 = chars@;
    let n = chars.len();
    let mut i: usize = 0;
    while i < n
        invariant
            0 <= i <= n,
            n == chars0.len(),
            chars@.len() == chars0.len(),
            forall|j: int| 0 <= j < chars0.len() ==> spec_char_wf(#[trigger] chars0[j]),
            forall|j: int| i <= j < chars0.len() ==> chars@[j] == chars0[j],
            forall|j: int| 0 <= j < i ==> chars@[j] == spec_apply_damping(chars0[j]),
            forall|j: int| 0 <= j < i ==> spec_char_wf(#[trigger] chars@[j]),
        decreases n - i,
    {
        let c = chars[i];
        proof {
            assert(chars@[i as int] == chars0[i as int]);
        }
        let c1 = apply_damping_char(c);
        chars.set(i, c1);
        i += 1;
    }
    proof {
        assert(chars@ =~= spec_damp_players(chars0));
    }
}

/// The gravity stage over the whole collection.
pub open spec fn spec_gravity_players(chars: Seq<CharacterState>, g: FxVec2, rate: int) -> Seq<
    CharacterState,
> {
    Seq::new(chars.len(), |i: int| spec_apply_gravity(chars[i], g, rate))
}

/// Apply one tick of gravity to every airborne player.
pub fn apply_gravity(chars: &mut Vec<CharacterState>, g: FxVec2, rate: u64)
    requires
        forall|i: int| 0 <= i < old(chars)@.len() ==> spec_char_wf(#[trigger] old(chars)@[i]),
        1 <= rate <= MAX_TICK_RATE,
        -VEL_LIMIT <= g.x <= VEL_LIMIT,
        -VEL_LIMIT <= g.y <= VEL_LIMIT,
    ensures
        final(chars)@ == spec_gravity_players(old(chars)@, g, rate as int),
        forall|i: int| 0 <= i < final(chars)@.len() ==> spec_char_wf(#[trigger] final(chars)@[i]),
{
    let ghost chars0 = chars@;
    let n = chars.len();
    let mut i: usize = 0;
    while i < n
        invariant
            0 <= i <= n,
            n == chars0.len(),
            chars@.len() == chars0.len(),
            1 <= rate <= MAX_TICK_RATE,
            -VEL_LIMIT <= g.x <= VEL_LIMIT,
            -VEL_LIMIT <= g.y <= VEL_LIMIT,
            forall|j: int| 0 <= j < chars0.len() ==> spec_char_wf(#[trigger] chars0[j]),
            forall|j: int| i <= j < chars0.len() ==> chars@[j] == chars0[j],
            forall|j: int| 0 <= j < i ==> chars@[j] == spec_apply_gravity(chars0[j], g, rate as int),
            forall|j: int| 0 <= j < i ==> spec_char_wf(#[trigger] chars@[j]),
        decreases n - i,
    {
        let c = chars[i];
        proof {
            assert(chars@[i as int] == chars0[i as int]);
        }
        let c1 = apply_gravity_char(c, g, rate);
        chars.set(i, c1);
        i += 1;
    }
    proof {
        assert(chars@ =~= spec_gravity_players(chars0, g, rate as int));
    }
}

/// The integration stage over the whole collection.
pub open spec fn spec_integrate_players(chars: Seq<CharacterState>, rate: int) -> Seq<
    CharacterState,
> {
    Seq::new(chars.len(), |i: int| spec_integrate(chars[i], rate))
}

/// Integrate every player's position by one tick.
pub fn integrate_positions(chars: &mut Vec<CharacterState>, rate: u64)
    requires
        forall|i: int| 0 <= i < old(chars)@.len() ==> spec_char_wf(#[trigger] old(chars)@[i]),
        1 <= rate <= MAX_TICK_RATE,
    ensures
        final(chars)@ == spec_integrate_players(old(chars)@, rate as int),
        forall|i: int| 0 <= i < final(chars)@.len() ==> spec_char_wf(#[trigger] final(chars)@[i]),
{
    let ghost chars0 = chars@;
    let n = chars.len();
    let mut i: usize = 0;
    while i < n
        invariant
            0 <= i <= n,
            n == chars0.len(),
            chars@.len() == chars0.len(),
            1 <= rate <= MAX_TICK_RATE,
            forall|j: int| 0 <= j < chars0.len() ==> spec_char_wf(#[trigger] chars0[j]),
            forall|j: int| i <= j < chars0.len() ==> chars@[j] == chars0[j],
            forall|j: int| 0 <= j < i ==> chars@[j] == spec_integrate(chars0[j], rate as int),
            forall|j: int| 0 <= j < i ==> spec_char_wf(#[trigger] chars@[j]),
        decreases n - i,
    {
        let c = chars[i];
        proof {
            assert(chars@[i as int] == chars0[i as int]);
        }
        let c1 = integrate_char(c, rate);
        chars.set(i, c1);
        i += 1;
    }
    proof {
        assert(chars@ =~= spec_integrate_players(chars0, rate as int));
    }
}

/// Whether a list of probe hit normals grounds a character: some hit's
/// surface is within the character's climbable slope.
pub open spec fn spec_hits_ground(c: CharacterState, hits: Seq<FxVec2>) -> bool {
    exists|k: int|
        0 <= k < hits.len() && spec_climbable(#[trigger] hits[k], c.movement.max_slope_angle.0 as int)
}

/// The ground-detection stage over the whole collection, from
/// externally supplied probe hits.
pub open spec fn spec_ground_players(chars: Seq<CharacterState>, hits: Seq<Seq<FxVec2>>) -> Seq<
    CharacterState,
> {
    Seq::new(
        chars.len(),
        |i: int| CharacterState { grounded: spec_hits_ground(chars[i], hits[i]), ..chars[i] },
    )
}

/// The views of a vector of hit lists.
pub open spec fn spec_hit_lists(hits: Seq<Vec<FxVec2>>) -> Seq<Seq<FxVec2>> {
    hits.map_values(|v: Vec<FxVec2>| v@)
}

/// Set every player's grounded flag from that player's ground-probe
/// hits: a player is grounded exactly when some hit's surface normal
/// leans no further from "up" than the player's steepest climbable
/// slope.
pub fn update_grounded(chars: &mut Vec<CharacterState>, hits: &Vec<Vec<FxVec2>>)
    requires
        forall|i: int| 0 <= i < old(chars)@.len() ==> spec_char_wf(#[trigger] old(chars)@[i]),
        hits@.len() == old(chars)@.len(),
        forall|i: int, k: int|
            0 <= i < hits@.len() && 0 <= k < hits@[i]@.len() ==> -TUNABLE_LIMIT <= (
            #[trigger] hits@[i]@[k]).x <= TUNABLE_LIMIT && -TUNABLE_LIMIT <= hits@[i]@[k].y
                <= TUNABLE_LIMIT,
    ensures
        final(chars)@ == spec_ground_players(old(chars)@, spec_hit_lists(hits@)),
        forall|i: int| 0 <= i < final(chars)@.len() ==> spec_char_wf(#[trigger] final(chars)@[i]),
{
    let ghost chars0 = chars@;
    let n = chars.len();
    let mut i: usize = 0;
    while i < n
        invariant
            0 <= i <= n,
            n == chars0.len(),
            chars@.len() == chars0.len(),
            hits@.len() == chars0.len(),
            forall|j: int, k: int|
                0 <= j < hits@.len() && 0 <= k < hits@[j]@.len() ==> -TUNABLE_LIMIT <= (
                #[trigger] hits@[j]@[k]).x <= TUNABLE_LIMIT && -TUNABLE_LIMIT <= hits@[j]@[k].y
                    <= TUNABLE_LIMIT,
            forall|j: int| 0 <= j < chars0.len() ==> spec_char_wf(#[trigger] chars0[j]),
            forall|j: int| i <= j < chars0.len() ==> chars@[j] == chars0[j],
            forall|j: int|
                0 <= j < i ==> chars@[j] == (CharacterState {
                    grounded: spec_hits_ground(chars0[j], hits@[j]@),
                    ..chars0[j]
                }),
            forall|j: int| 0 <= j < i ==> spec_char_wf(#[trigger] chars@[j]),
        decreases n - i,
    {
        let c = chars[i];
        proof {
            assert(chars@[i as int] == chars0[i as int]);
        }
        let m = hits[i].len();
        let mut found: bool = false;
        let mut k: usize = 0;
        while k < m
            invariant
                0 <= k <= m,
                0 <= i < hits@.len(),
                m == hits@[i as int]@.len(),
                spec_char_wf(c),
                forall|j: int, kk: int|
                    0 <= j < hits@.len() && 0 <= kk < hits@[j]@.len() ==> -TUNABLE_LIMIT <= (
                    #[trigger] hits@[j]@[kk]).x <= TUNABLE_LIMIT && -TUNABLE_LIMIT
                        <= hits@[j]@[kk].y <= TUNABLE_LIMIT,
                found == exists|kk: int|
                    0 <= kk < k && spec_climbable(
                        #[trigger] hits@[i as int]@[kk],
                        c.movement.max_slope_angle.0 as int,
                    ),
            decreases m - k,
        {
            let hn = hits[i][k];
            if climbable(hn, c.movement.max_slope_angle.0) {
                found = true;
            }
            k += 1;
        }
        let c1 = CharacterState { grounded: found, ..c };
        chars.set(i, c1);
        i += 1;
    }
    proof {
        assert(chars@ =~= spec_ground_players(chars0, spec_hit_lists(hits@)));
    }
}

/// The ground-detection stage over the whole collection, from the
/// level's own geometry probe.
pub open spec fn spec_probe_players(chars: Seq<CharacterState>, rects: Seq<StaticRect>) -> Seq<
    CharacterState,
> {
    Seq::new(
        chars.len(),
        |i: int| CharacterState { grounded: spec_probe_grounded(chars[i], rects), ..chars[i] },
    )
}

/// Set every player's grounded flag by probing the level geometry
/// under the player.
pub fn probe_players(chars: &mut Vec<CharacterState>, geom: &StaticGeometry)
    requires
        forall|i: int| 0 <= i < old(chars)@.len() ==> spec_char_wf(#[trigger] old(chars)@[i]),
        spec_geom_wf(geom.rects@),
    ensures
        final(chars)@ == spec_probe_players(old(chars)@, geom.rects@),
        forall|i: int| 0 <= i < final(chars)@.len() ==> spec_char_wf(#[trigger] final(chars)@[i]),
{
    let ghost chars0 = chars@;
    let n = chars.len();
    let mut i: usize = 0;
    while i < n
        invariant
            0 <= i <= n,
            n == chars0.len(),
            chars@.len() == chars0.len(),
            spec_geom_wf(geom.rects@),
            forall|j: int| 0 <= j < chars0.len() ==> spec_char_wf(#[trigger] chars0[j]),
            forall|j: int| i <= j < chars0.len() ==> chars@[j] == chars0[j],
            forall|j: int|
                0 <= j < i ==> chars@[j] == (CharacterState {
                    grounded: spec_probe_grounded(chars0[j], geom.rects@),
                    ..chars0[j]
                }),
            forall|j: int| 0 <= j < i ==> spec_char_wf(#[trigger] chars@[j]),
        decreases n - i,
    {
        let c = chars[i];
        proof {
            assert(chars@[i as int] == chars0[i as int]);
        }
        let g = probe_grounded(&c, geom);
        let c1 = CharacterState { grounded: g, ..c };
        chars.set(i, c1);
        i += 1;
    }
    proof {
        assert(chars@ =~= spec_probe_players(chars0, geom.rects@));
    }
}

} // verus!
