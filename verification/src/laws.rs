//! The guarantees the rollback scheme rests on, stated and proved over
//! the registry's run function.
//!
//! Each law is a public proof function: its parameters are the law's
//! inputs, its `requires` only what the law assumes, and its `ensures`
//! the law itself, stated over the same spec functions the executable
//! contracts use.

use vstd::prelude::*;

use crate::character::CharacterState;
use crate::character::spec_char_wf;
use crate::checksum::spec_state_checksum;
use crate::collision::ManifoldModel;
use crate::collision::spec_apply_manifold;
use crate::collision::spec_char_contacts;
use crate::collision::spec_gen_contacts;
use crate::collision::spec_push_contacts;
use crate::collision::spec_push_one;
use crate::collision::spec_resolve_all;
use crate::collision::spec_resolve_manifold;
use crate::geometry::StaticRect;
use crate::input::InputFrame;
use crate::input::spec_decode_direction;
use crate::input::spec_decode_jump;
use crate::math::COORD_LIMIT;
use crate::math::FxVec2;
use crate::math::MAX_TICK_RATE;
use crate::math::SCALE;
use crate::math::VEL_LIMIT;
use crate::math::spec_abs;
use crate::math::spec_div_trunc;
use crate::registry::spec_canonical_players;
use crate::registry::spec_run;
use crate::registry::spec_step_chars;
use crate::sim::MAX_MOVE_SPEED;
use crate::sim::lemma_damping_shrinks;
use crate::sim::lemma_direct_decode;
use crate::sim::spec_apply_damping;
use crate::sim::spec_apply_gravity;
use crate::sim::spec_apply_move;
use crate::sim::spec_damp_players;
use crate::sim::spec_flatten_events;
use crate::sim::spec_gravity_players;
use crate::sim::spec_integrate;
use crate::sim::spec_integrate_players;
use crate::sim::spec_move_one;
use crate::sim::spec_move_players;
use crate::sim::spec_probe_players;
use crate::sim::spec_process_inputs;

verus! {

/// Determinism: the tick step and hence any run is a pure function of
/// the rollback state and the inputs.  Two peers starting from
/// bit-identical state and fed the same input frames, level and tick
/// rate hold bit-identical state after any number of ticks — nothing
/// outside these arguments can influence the outcome, because the
/// executable step's contract equates it with `spec_step_chars` of
/// exactly these arguments.
pub proof fn lemma_determinism(
    chars1: Seq<CharacterState>,
    chars2: Seq<CharacterState>,
    ticks: Seq<Seq<InputFrame>>,
    rects: Seq<StaticRect>,
    g: FxVec2,
    paused: bool,
    rate: int,
)
    requires
        chars1 == chars2,
    ensures
        spec_run(chars1, ticks, rects, g, paused, rate) == spec_run(
            chars2,
            ticks,
            rects,
            g,
            paused,
            rate,
        ),
        spec_step_chars(chars1, ticks.first(), rects, g, paused, rate) == spec_step_chars(
            chars2,
            ticks.first(),
            rects,
            g,
            paused,
            rate,
        ),
{
}

/// Runs compose: stepping through `t1` and then through `t2` is the
/// run through `t1` followed by `t2`.
pub proof fn lemma_run_append(
    chars: Seq<CharacterState>,
    t1: Seq<Seq<InputFrame>>,
    t2: Seq<Seq<InputFrame>>,
    rects: Seq<StaticRect>,
    g: FxVec2,
    paused: bool,
    rate: int,
)
    ensures
        spec_run(chars, t1 + t2, rects, g, paused, rate) == spec_run(
            spec_run(chars, t1, rects, g, paused, rate),
            t2,
            rects,
            g,
            paused,
            rate,
        ),
    decreases t1.len(),
{
    if t1.len() == 0 {
        assert(t1 + t2 =~= t2);
    } else {
        assert((t1 + t2).first() == t1.first());
        assert((t1 + t2).drop_first() =~= t1.drop_first() + t2);
        lemma_run_append(
            spec_step_chars(chars, t1.first(), rects, g, paused, rate),
            t1.drop_first(),
            t2,
            rects,
            g,
            paused,
            rate,
        );
    }
}

/// A run of one tick is one step.
pub proof fn lemma_run_single(
    chars: Seq<CharacterState>,
    u: Seq<InputFrame>,
    rects: Seq<StaticRect>,
    g: FxVec2,
    paused: bool,
    rate: int,
)
    ensures
        spec_run(chars, seq![u], rects, g, paused, rate) == spec_step_chars(
            chars,
            u,
            rects,
            g,
            paused,
            rate,
        ),
{
    assert(seq![u].first() == u);
    assert(seq![u].drop_first() =~= Seq::<Seq<InputFrame>>::empty());
    assert(spec_run(
        spec_step_chars(chars, u, rects, g, paused, rate),
        Seq::<Seq<InputFrame>>::empty(),
        rects,
        g,
        paused,
        rate,
    ) == spec_step_chars(chars, u, rects, g, paused, rate));
}

/// Rollback equivalence: for any tick `k` of a run, restoring the
/// state the run had after `k` ticks (the snapshot taken before tick
/// `k`) and replaying the remaining ticks yields exactly the state of
/// the single uninterrupted forward run.  Rollback is observationally
/// transparent.
pub proof fn lemma_rollback_equivalence(
    chars: Seq<CharacterState>,
    ticks: Seq<Seq<InputFrame>>,
    k: int,
    rects: Seq<StaticRect>,
    g: FxVec2,
    paused: bool,
    rate: int,
)
    requires
        0 <= k <= ticks.len(),
    ensures
        spec_run(
            spec_run(chars, ticks.take(k), rects, g, paused, rate),
            ticks.skip(k),
            rects,
            g,
            paused,
            rate,
        ) == spec_run(chars, ticks, rects, g, paused, rate),
{
    assert(ticks.take(k) + ticks.skip(k) =~= ticks);
    lemma_run_append(chars, ticks.take(k), ticks.skip(k), rects, g, paused, rate);
}

/// Checksum agreement: two peers fed the same input history hold equal
/// checksums at every tick of the run, because the checksum is a pure
/// function of the canonical state and the state itself is determined
/// by the inputs.
pub proof fn lemma_checksum_agreement(
    chars1: Seq<CharacterState>,
    chars2: Seq<CharacterState>,
    ticks: Seq<Seq<InputFrame>>,
    t: int,
    rects: Seq<StaticRect>,
    g: FxVec2,
    paused: bool,
    rate: int,
)
    requires
        chars1 == chars2,
        0 <= t <= ticks.len(),
    ensures
        spec_state_checksum(spec_run(chars1, ticks.take(t), rects, g, paused, rate))
            == spec_state_checksum(spec_run(chars2, ticks.take(t), rects, g, paused, rate)),
{
}

/// The damping step iterated: the horizontal speed after `m` ticks of
/// damping by `d` thousandths per tick.
pub open spec fn spec_damp_iter(v: int, d: int, m: nat) -> int
    decreases m,
{
    if m == 0 {
        v
    } else {
        spec_div_trunc(spec_damp_iter(v, d, (m - 1) as nat) * d, SCALE as int)
    }
}

/// What one movement application does and preserves.
proof fn lemma_move_one_props(c: CharacterState, mv: Option<FxVec2>, jump: bool, rate: int)
    requires
        spec_char_wf(c),
        1 <= rate <= MAX_TICK_RATE,
    ensures
        spec_char_wf(spec_move_one(c, mv, jump, rate)),
        spec_move_one(c, mv, jump, rate).pos == c.pos,
        spec_move_one(c, mv, jump, rate).grounded == c.grounded,
        spec_move_one(c, mv, jump, rate).movement == c.movement,
        spec_move_one(c, mv, jump, rate).collider == c.collider,
        spec_move_one(c, mv, jump, rate).sensor == c.sensor,
        -MAX_MOVE_SPEED <= c.vel.x <= MAX_MOVE_SPEED ==> -MAX_MOVE_SPEED <= spec_move_one(
            c,
            mv,
            jump,
            rate,
        ).vel.x <= MAX_MOVE_SPEED,
        (mv == Option::Some(FxVec2 { x: 0, y: 0 }) || mv is None) && !(jump && c.grounded)
            ==> spec_move_one(c, mv, jump, rate) == c,
{
    match mv {
        Option::None => {},
        Option::Some(dir) => {
            if dir.x == 0 && dir.y == 0 {
            } else {
                let w: int = if dir.x != 0 && dir.y != 0 {
                    707
                } else {
                    1000
                };
                let prod: int = w * c.movement.acceleration.0 * 10;
                assert(0 <= w * c.movement.acceleration.0 * 10 <= 10_000_000_000)
                    by (nonlinear_arith)
                    requires
                        0 <= c.movement.acceleration.0 <= 1_000_000,
                        w == 707 || w == 1000,
                ;
                vstd::arithmetic::div_mod::lemma_div_pos_is_pos(prod, 1000 * rate);
                vstd::arithmetic::div_mod::lemma_div_is_ordered_by_denominator(
                    prod,
                    1000,
                    1000 * rate,
                );
            }
        },
    }
    let c1 = spec_apply_move(c, mv, rate);
    if jump && c1.grounded {
        let j: int = c.movement.jump_impulse.0 * 60;
        assert(0 <= j <= 60_000_000);
        vstd::arithmetic::div_mod::lemma_div_pos_is_pos(j, rate);
        vstd::arithmetic::div_mod::lemma_div_is_ordered_by_denominator(j, 1, rate);
        vstd::arithmetic::div_mod::lemma_div_basics(j);
    }
}

/// What one damping application does and preserves.
proof fn lemma_damp_props(c: CharacterState)
    requires
        spec_char_wf(c),
    ensures
        spec_char_wf(spec_apply_damping(c)),
        spec_apply_damping(c).vel.x == spec_div_trunc(
            c.vel.x * c.movement.damping.0,
            SCALE as int,
        ),
        spec_apply_damping(c).vel.y == c.vel.y,
        spec_apply_damping(c).pos == c.pos,
        spec_apply_damping(c).grounded == c.grounded,
        spec_apply_damping(c).movement == c.movement,
        spec_apply_damping(c).collider == c.collider,
        spec_apply_damping(c).sensor == c.sensor,
        spec_abs(spec_apply_damping(c).vel.x as int) <= spec_abs(c.vel.x as int),
{
    lemma_damping_shrinks(c.vel.x as int, c.movement.damping.0 as int);
}

/// What one gravity application does and preserves.
proof fn lemma_gravity_props(c: CharacterState, g: FxVec2, rate: int)
    requires
        spec_char_wf(c),
        1 <= rate <= MAX_TICK_RATE,
        -VEL_LIMIT <= g.x <= VEL_LIMIT,
        -VEL_LIMIT <= g.y <= VEL_LIMIT,
    ensures
        spec_char_wf(spec_apply_gravity(c, g, rate)),
        spec_apply_gravity(c, g, rate).pos == c.pos,
        spec_apply_gravity(c, g, rate).grounded == c.grounded,
        spec_apply_gravity(c, g, rate).movement == c.movement,
        spec_apply_gravity(c, g, rate).collider == c.collider,
        spec_apply_gravity(c, g, rate).sensor == c.sensor,
        g.x == 0 ==> spec_apply_gravity(c, g, rate).vel.x == c.vel.x,
{
    if !c.grounded {
        vstd::arithmetic::div_mod::lemma_div_of0(rate);
    }
}

/// What one integration application does and preserves.
proof fn lemma_integrate_props(c: CharacterState, rate: int)
    requires
        spec_char_wf(c),
        1 <= rate <= MAX_TICK_RATE,
    ensures
        spec_char_wf(spec_integrate(c, rate)),
        spec_integrate(c, rate).vel == c.vel,
        spec_integrate(c, rate).grounded == c.grounded,
        spec_integrate(c, rate).movement == c.movement,
        spec_integrate(c, rate).collider == c.collider,
        spec_integrate(c, rate).sensor == c.sensor,
{
}

/// Position pushes stay inside the world.
proof fn lemma_push_contacts_wf(pos: FxVec2, n: FxVec2, pens: Seq<i64>)
    requires
        -COORD_LIMIT <= pos.x <= COORD_LIMIT,
        -COORD_LIMIT <= pos.y <= COORD_LIMIT,
    ensures
        -COORD_LIMIT <= spec_push_contacts(pos, n, pens).x <= COORD_LIMIT,
        -COORD_LIMIT <= spec_push_contacts(pos, n, pens).y <= COORD_LIMIT,
    decreases pens.len(),
{
    if pens.len() > 0 {
        let p1 = spec_push_one(pos, n, pens.first());
        lemma_push_contacts_wf(p1, n, pens.drop_first());
    }
}

/// Resolving one manifold keeps the character well-formed and leaves
/// its tunables, shapes and grounded flag alone.
proof fn lemma_resolve_manifold_props(c: CharacterState, m: ManifoldModel, rate: int)
    requires
        spec_char_wf(c),
    ensures
        spec_char_wf(spec_resolve_manifold(c, m, rate)),
        spec_resolve_manifold(c, m, rate).grounded == c.grounded,
        spec_resolve_manifold(c, m, rate).movement == c.movement,
        spec_resolve_manifold(c, m, rate).collider == c.collider,
        spec_resolve_manifold(c, m, rate).sensor == c.sensor,
{
    lemma_push_contacts_wf(c.pos, m.normal, m.penetrations);
}

/// Resolving any manifold batch keeps every character well-formed and
/// leaves tunables, shapes and grounded flags alone.
proof fn lemma_resolve_all_props(chars: Seq<CharacterState>, ms: Seq<ManifoldModel>, rate: int)
    requires
        forall|i: int| 0 <= i < chars.len() ==> spec_char_wf(#[trigger] chars[i]),
    ensures
        spec_resolve_all(chars, ms, rate).len() == chars.len(),
        forall|i: int|
            0 <= i < chars.len() ==> spec_char_wf(#[trigger] spec_resolve_all(chars, ms, rate)[i]),
        forall|i: int|
            0 <= i < chars.len() ==> (#[trigger] spec_resolve_all(chars, ms, rate)[i]).grounded
                == chars[i].grounded && spec_resolve_all(chars, ms, rate)[i].movement
                == chars[i].movement,
    decreases ms.len(),
{
    if ms.len() > 0 {
        let m = ms.first();
        let step = spec_apply_manifold(chars, m, rate);
        if m.character < chars.len() {
            lemma_resolve_manifold_props(chars[m.character as int], m, rate);
        }
        assert(forall|i: int| 0 <= i < step.len() ==> spec_char_wf(#[trigger] step[i]));
        lemma_resolve_all_props(step, ms.drop_first(), rate);
        assert(forall|i: int|
            0 <= i < chars.len() ==> (#[trigger] step[i]).grounded == chars[i].grounded
                && step[i].movement == chars[i].movement);
    }
}

/// With no level geometry the narrow phase reports nothing.
proof fn lemma_gen_contacts_empty(chars: Seq<CharacterState>, rects: Seq<StaticRect>)
    requires
        rects.len() == 0,
    ensures
        spec_gen_contacts(chars, rects).len() == 0,
    decreases chars.len(),
{
    if chars.len() > 0 {
        lemma_gen_contacts_empty(chars.drop_last(), rects);
        assert(spec_char_contacts(chars.last(), (chars.len() - 1) as usize, rects).len() == 0);
    }
}

/// One unpaused tick keeps every character well-formed, keeps the
/// character count, and never touches the tunables.
pub proof fn lemma_step_props(
    chars: Seq<CharacterState>,
    inputs: Seq<InputFrame>,
    rects: Seq<StaticRect>,
    g: FxVec2,
    paused: bool,
    rate: int,
)
    requires
        forall|i: int| 0 <= i < chars.len() ==> spec_char_wf(#[trigger] chars[i]),
        -VEL_LIMIT <= g.x <= VEL_LIMIT,
        -VEL_LIMIT <= g.y <= VEL_LIMIT,
        1 <= rate <= MAX_TICK_RATE,
    ensures
        spec_step_chars(chars, inputs, rects, g, paused, rate).len() == chars.len(),
        forall|i: int|
            0 <= i < chars.len() ==> spec_char_wf(
                #[trigger] spec_step_chars(chars, inputs, rects, g, paused, rate)[i],
            ),
        forall|i: int|
            0 <= i < chars.len() ==> (#[trigger] spec_step_chars(
                chars,
                inputs,
                rects,
                g,
                paused,
                rate,
            )[i]).movement == chars[i].movement,
{
    if !paused {
        let acts = spec_flatten_events(
            spec_process_inputs(inputs, spec_canonical_players(chars.len() as int)),
        );
        let c1 = spec_move_players(chars, acts, rate);
        let c2 = spec_damp_players(c1);
        let c3 = spec_gravity_players(c2, g, rate);
        let c4 = spec_integrate_players(c3, rate);
        assert forall|i: int| 0 <= i < chars.len() implies spec_char_wf(#[trigger] c1[i]) && c1[i].movement
            == chars[i].movement by {
            lemma_move_one_props(
                chars[i],
                crate::sim::spec_latest_move(acts, i as usize),
                crate::sim::spec_has_jump(acts, i as usize),
                rate,
            );
        }
        assert forall|i: int| 0 <= i < chars.len() implies spec_char_wf(#[trigger] c2[i]) && c2[i].movement
            == chars[i].movement by {
            lemma_damp_props(c1[i]);
        }
        assert forall|i: int| 0 <= i < chars.len() implies spec_char_wf(#[trigger] c3[i]) && c3[i].movement
            == chars[i].movement by {
            lemma_gravity_props(c2[i], g, rate);
        }
        assert forall|i: int| 0 <= i < chars.len() implies spec_char_wf(#[trigger] c4[i]) && c4[i].movement
            == chars[i].movement by {
            lemma_integrate_props(c3[i], rate);
        }
        let c5 = spec_resolve_all(c4, spec_gen_contacts(c4, rects), rate);
        lemma_resolve_all_props(c4, spec_gen_contacts(c4, rects), rate);
        let c6 = spec_probe_players(c5, rects);
        assert(c6.len() == chars.len());
        assert(forall|i: int| 0 <= i < chars.len() ==> spec_char_wf(#[trigger] c6[i]));
    }
}

/// One free-space tick (no geometry, vertical gravity) keeps every
/// horizontal speed within the input-driven bound.
proof fn lemma_step_speed(
    chars: Seq<CharacterState>,
    inputs: Seq<InputFrame>,
    g: FxVec2,
    rate: int,
)
    requires
        forall|i: int| 0 <= i < chars.len() ==> spec_char_wf(#[trigger] chars[i]),
        g.x == 0,
        -VEL_LIMIT <= g.y <= VEL_LIMIT,
        1 <= rate <= MAX_TICK_RATE,
        forall|i: int|
            0 <= i < chars.len() ==> -MAX_MOVE_SPEED <= (#[trigger] chars[i]).vel.x
                <= MAX_MOVE_SPEED,
    ensures
        forall|i: int|
            0 <= i < chars.len() ==> -MAX_MOVE_SPEED <= (#[trigger] spec_step_chars(
                chars,
                inputs,
                Seq::<StaticRect>::empty(),
                g,
                false,
                rate,
            )[i]).vel.x <= MAX_MOVE_SPEED,
{
    let rects = Seq::<StaticRect>::empty();
    let acts = spec_flatten_events(
        spec_process_inputs(inputs, spec_canonical_players(chars.len() as int)),
    );
    let c1 = spec_move_players(chars, acts, rate);
    let c2 = spec_damp_players(c1);
    let c3 = spec_gravity_players(c2, g, rate);
    let c4 = spec_integrate_players(c3, rate);
    assert forall|i: int| 0 <= i < chars.len() implies spec_char_wf(#[trigger] c4[i])
        && -MAX_MOVE_SPEED <= c4[i].vel.x <= MAX_MOVE_SPEED by {
        lemma_move_one_props(
            chars[i],
            crate::sim::spec_latest_move(acts, i as usize),
            crate::sim::spec_has_jump(acts, i as usize),
            rate,
        );
        lemma_damp_props(c1[i]);
        lemma_gravity_props(c2[i], g, rate);
        lemma_integrate_props(c3[i], rate);
    }
    lemma_gen_contacts_empty(c4, rects);
    let c5 = spec_resolve_all(c4, spec_gen_contacts(c4, rects), rate);
    assert(c5 == c4);
    let c6 = spec_probe_players(c5, rects);
    assert(forall|i: int| 0 <= i < chars.len() ==> (#[trigger] c6[i]).vel == c5[i].vel);
}

/// Clamp correctness: in free space with vertical gravity, a run of
/// any length under any inputs — held, released, mashed — never drives
/// a horizontal speed beyond [`MAX_MOVE_SPEED`] in either direction,
/// provided it started within the bound.  The acceleration clamp, the
/// damping factor below one and the untouched horizontal axis of
/// gravity together preserve the bound every tick.
pub proof fn lemma_clamp_correctness(
    chars: Seq<CharacterState>,
    ticks: Seq<Seq<InputFrame>>,
    g: FxVec2,
    rate: int,
)
    requires
        forall|i: int| 0 <= i < chars.len() ==> spec_char_wf(#[trigger] chars[i]),
        g.x == 0,
        -VEL_LIMIT <= g.y <= VEL_LIMIT,
        1 <= rate <= MAX_TICK_RATE,
        forall|i: int|
            0 <= i < chars.len() ==> -MAX_MOVE_SPEED <= (#[trigger] chars[i]).vel.x
                <= MAX_MOVE_SPEED,
    ensures
        spec_run(chars, ticks, Seq::<StaticRect>::empty(), g, false, rate).len() == chars.len(),
        forall|i: int|
            0 <= i < chars.len() ==> -MAX_MOVE_SPEED <= (#[trigger] spec_run(
                chars,
                ticks,
                Seq::<StaticRect>::empty(),
                g,
                false,
                rate,
            )[i]).vel.x <= MAX_MOVE_SPEED,
    decreases ticks.len(),
{
    let rects = Seq::<StaticRect>::empty();
    if ticks.len() > 0 {
        let step = spec_step_chars(chars, ticks.first(), rects, g, false, rate);
        lemma_step_props(chars, ticks.first(), rects, g, false, rate);
        lemma_step_speed(chars, ticks.first(), g, rate);
        lemma_clamp_correctness(step, ticks.drop_first(), g, rate);
    }
}

/// The frames of a tick on which every peer coasts: all zero masks,
/// everyone connected.
pub open spec fn spec_coast_frames(inputs: Seq<InputFrame>, n: int) -> bool {
    &&& inputs.len() == n
    &&& forall|p: int|
        0 <= p < inputs.len() ==> #[trigger] inputs[p] == (InputFrame { mask: 0, connected: true })
}

/// A zero mask decodes to no intent and no jump.
proof fn lemma_zero_mask_decodes_nothing()
    ensures
        spec_decode_direction(0) == (FxVec2 { x: 0, y: 0 }),
        !spec_decode_jump(0),
{
    assert(0u8 & 1u8 == 0 && 0u8 & 2u8 == 0 && 0u8 & 4u8 == 0 && 0u8 & 8u8 == 0 && 0u8 & 16u8
        == 0) by (bit_vector);
}

/// One coasting tick (zero input, no geometry, vertical gravity)
/// multiplies every horizontal speed by exactly the character's
/// damping factor, and changes no tunable.
proof fn lemma_coast_step(chars: Seq<CharacterState>, inputs: Seq<InputFrame>, g: FxVec2, rate: int)
    requires
        forall|i: int| 0 <= i < chars.len() ==> spec_char_wf(#[trigger] chars[i]),
        chars.len() <= usize::MAX,
        g.x == 0,
        -VEL_LIMIT <= g.y <= VEL_LIMIT,
        1 <= rate <= MAX_TICK_RATE,
        spec_coast_frames(inputs, chars.len() as int),
    ensures
        forall|i: int|
            0 <= i < chars.len() ==> (#[trigger] spec_step_chars(
                chars,
                inputs,
                Seq::<StaticRect>::empty(),
                g,
                false,
                rate,
            )[i]).vel.x == spec_div_trunc(
                chars[i].vel.x * chars[i].movement.damping.0,
                SCALE as int,
            ),
{
    let rects = Seq::<StaticRect>::empty();
    let n = chars.len() as int;
    let acts = spec_flatten_events(spec_process_inputs(inputs, spec_canonical_players(n)));
    let c1 = spec_move_players(chars, acts, rate);
    let c2 = spec_damp_players(c1);
    let c3 = spec_gravity_players(c2, g, rate);
    let c4 = spec_integrate_players(c3, rate);
    lemma_zero_mask_decodes_nothing();
    assert forall|i: int| 0 <= i < chars.len() implies #[trigger] c1[i] == chars[i] by {
        lemma_direct_decode(inputs, n, i as usize);
        assert(inputs[i] == (InputFrame { mask: 0, connected: true }));
        lemma_move_one_props(
            chars[i],
            crate::sim::spec_latest_move(acts, i as usize),
            crate::sim::spec_has_jump(acts, i as usize),
            rate,
        );
    }
    assert forall|i: int| 0 <= i < chars.len() implies spec_char_wf(#[trigger] c4[i]) && c4[i].vel.x
        == spec_div_trunc(chars[i].vel.x * chars[i].movement.damping.0, SCALE as int) by {
        lemma_move_one_props(
            chars[i],
            crate::sim::spec_latest_move(acts, i as usize),
            crate::sim::spec_has_jump(acts, i as usize),
            rate,
        );
        lemma_damp_props(c1[i]);
        lemma_gravity_props(c2[i], g, rate);
        lemma_integrate_props(c3[i], rate);
    }
    lemma_gen_contacts_empty(c4, rects);
    let c5 = spec_resolve_all(c4, spec_gen_contacts(c4, rects), rate);
    assert(c5 == c4);
    let c6 = spec_probe_players(c5, rects);
    assert(forall|i: int| 0 <= i < chars.len() ==> (#[trigger] c6[i]).vel == c5[i].vel);
}

/// Iterating the damping step from the front or from the back agrees.
proof fn lemma_damp_iter_shift(v: int, d: int, m: nat)
    requires
        m >= 1,
    ensures
        spec_damp_iter(v, d, m) == spec_damp_iter(
            spec_div_trunc(v * d, SCALE as int),
            d,
            (m - 1) as nat,
        ),
    decreases m,
{
    let w = spec_div_trunc(v * d, SCALE as int);
    if m == 1 {
        assert(spec_damp_iter(v, d, 0) == v);
        assert(spec_damp_iter(w, d, 0) == w);
        assert(spec_damp_iter(v, d, 1) == spec_div_trunc(
            spec_damp_iter(v, d, 0) * d,
            SCALE as int,
        ));
    } else {
        lemma_damp_iter_shift(v, d, (m - 1) as nat);
        assert(spec_damp_iter(v, d, m) == spec_div_trunc(
            spec_damp_iter(v, d, (m - 1) as nat) * d,
            SCALE as int,
        ));
        assert(spec_damp_iter(w, d, (m - 1) as nat) == spec_div_trunc(
            spec_damp_iter(w, d, (m - 2) as nat) * d,
            SCALE as int,
        ));
    }
}

/// Damping decay: with input released for `M` ticks in free space
/// under vertical gravity, every character's horizontal speed after
/// the run is exactly its starting speed with the damping factor
/// applied `M` times — the fixed-point form of decay by the factor to
/// the `M`-th power.
pub proof fn lemma_damping_decay(
    chars: Seq<CharacterState>,
    ticks: Seq<Seq<InputFrame>>,
    g: FxVec2,
    rate: int,
)
    requires
        forall|i: int| 0 <= i < chars.len() ==> spec_char_wf(#[trigger] chars[i]),
        chars.len() <= usize::MAX,
        g.x == 0,
        -VEL_LIMIT <= g.y <= VEL_LIMIT,
        1 <= rate <= MAX_TICK_RATE,
        forall|t: int|
            0 <= t < ticks.len() ==> spec_coast_frames(#[trigger] ticks[t], chars.len() as int),
    ensures
        spec_run(chars, ticks, Seq::<StaticRect>::empty(), g, false, rate).len() == chars.len(),
        forall|i: int|
            0 <= i < chars.len() ==> (#[trigger] spec_run(
                chars,
                ticks,
                Seq::<StaticRect>::empty(),
                g,
                false,
                rate,
            )[i]).vel.x == spec_damp_iter(
                chars[i].vel.x as int,
                chars[i].movement.damping.0 as int,
                ticks.len(),
            ),
    decreases ticks.len(),
{
    let rects = Seq::<StaticRect>::empty();
    if ticks.len() > 0 {
        let step = spec_step_chars(chars, ticks.first(), rects, g, false, rate);
        lemma_step_props(chars, ticks.first(), rects, g, false, rate);
        lemma_coast_step(chars, ticks.first(), g, rate);
        assert forall|t: int|
            0 <= t < ticks.drop_first().len() implies spec_coast_frames(
            #[trigger] ticks.drop_first()[t],
            step.len() as int,
        ) by {
            assert(ticks.drop_first()[t] == ticks[t + 1]);
        }
        lemma_damping_decay(step, ticks.drop_first(), g, rate);
        assert forall|i: int|
            0 <= i < chars.len() implies (#[trigger] spec_run(
            chars,
            ticks,
            rects,
            g,
            false,
            rate,
        )[i]).vel.x == spec_damp_iter(
            chars[i].vel.x as int,
            chars[i].movement.damping.0 as int,
            ticks.len(),
        ) by {
            assert(step[i].movement == chars[i].movement);
            assert(step[i].vel.x == spec_div_trunc(
                chars[i].vel.x * chars[i].movement.damping.0,
                SCALE as int,
            ));
            lemma_damp_iter_shift(
                chars[i].vel.x as int,
                chars[i].movement.damping.0 as int,
                ticks.len(),
            );
        }
    }
}

} // verus!
