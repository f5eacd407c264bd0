//! Kinematic collision response for character controllers.
//!
//! Characters are not pushed apart by a dynamics solver; their overlap
//! with static geometry is corrected explicitly, once per tick, after
//! the movement stages.  For every contact manifold, in the fixed order
//! the narrow phase produced them:
//!
//! - every penetrating contact pushes the character out along the
//!   contact normal by its penetration depth, before any velocity
//!   correction;
//! - on a climbable penetrating contact the vertical speed is snapped
//!   up to track the slope, so the character keeps contact walking up
//!   or down an incline;
//! - on an unclimbable penetrating contact the velocity component into
//!   the surface is rejected (collide-and-slide), unless the character
//!   is already moving away;
//! - on a speculative contact (no penetration yet) exactly the portion
//!   of the closing speed that would cause penetration within one tick
//!   is cancelled; climbable contacts only gain upward speed (no
//!   sliding downhill), unclimbable ones only lose it (no riding up
//!   walls).
//!
//! Velocity corrections apply only against static geometry; manifolds
//! against dynamic bodies still push the character out but leave its
//! velocity alone.

use vstd::prelude::*;

use crate::character::CharacterState;
use crate::character::spec_char_wf;
use crate::geometry::StaticGeometry;
use crate::geometry::rect_manifold;
use crate::geometry::spec_climbable;
use crate::geometry::spec_geom_wf;
use crate::geometry::spec_rect_manifold;
use crate::geometry::StaticRect;
use crate::math::COORD_LIMIT;
use crate::math::FxVec2;
use crate::math::MAX_TICK_RATE;
use crate::math::PEN_LIMIT;
use crate::math::SCALE;
use crate::math::TUNABLE_LIMIT;
use crate::math::VEL_LIMIT;
use crate::math::clamp_coord;
use crate::math::clamp_vel;
use crate::math::div_trunc;
use crate::math::dot_vel_normal;
use crate::math::lemma_mul_bound;
use crate::math::spec_clamp_coord;
use crate::math::spec_clamp_vel;
use crate::math::spec_div_trunc;
use crate::math::spec_dot;

verus! {

/// One contact manifold between a character and another body: the
/// contact normal (a fixed-point unit vector pointing away from the
/// other body), the penetration depth of each contact point sharing
/// that normal, whether the other body is dynamic, and which character
/// the manifold belongs to.
pub struct ContactManifold {
    pub character: usize,
    pub other_dynamic: bool,
    pub normal: FxVec2,
    pub penetrations: Vec<i64>,
}

/// The mathematical content of a contact manifold.
pub struct ManifoldModel {
    pub character: usize,
    pub other_dynamic: bool,
    pub normal: FxVec2,
    pub penetrations: Seq<i64>,
}

impl View for ContactManifold {
    type V = ManifoldModel;

    open spec fn view(&self) -> ManifoldModel {
        ManifoldModel {
            character: self.character,
            other_dynamic: self.other_dynamic,
            normal: self.normal,
            penetrations: self.penetrations@,
        }
    }
}

/// The models of a sequence of manifolds.
pub open spec fn spec_manifold_models(s: Seq<ContactManifold>) -> Seq<ManifoldModel> {
    s.map_values(|m: ContactManifold| m@)
}

/// A manifold the resolver accepts: an exactly unit fixed-point normal,
/// at least one contact, and bounded penetration depths.
pub open spec fn spec_manifold_wf(m: ManifoldModel) -> bool {
    &&& m.normal.x * m.normal.x + m.normal.y * m.normal.y == SCALE * SCALE
    &&& m.penetrations.len() >= 1
    &&& forall|k: int|
        0 <= k < m.penetrations.len() ==> -PEN_LIMIT <= #[trigger] m.penetrations[k] <= PEN_LIMIT
}

/// One position push: a penetrating contact moves the position along
/// the normal by the penetration depth, saturating at the world
/// bounds; a non-penetrating one moves nothing.
pub open spec fn spec_push_one(pos: FxVec2, n: FxVec2, pen: i64) -> FxVec2 {
    if pen > 0 {
        FxVec2 {
            x: spec_clamp_coord(pos.x + spec_div_trunc(n.x * pen, SCALE as int)) as i64,
            y: spec_clamp_coord(pos.y + spec_div_trunc(n.y * pen, SCALE as int)) as i64,
        }
    } else {
        pos
    }
}

/// The position pushes of a whole manifold, applied contact by contact
/// in order.
pub open spec fn spec_push_contacts(pos: FxVec2, n: FxVec2, pens: Seq<i64>) -> FxVec2
    decreases pens.len(),
{
    if pens.len() == 0 {
        pos
    } else {
        spec_push_contacts(spec_push_one(pos, n, pens.first()), n, pens.drop_first())
    }
}

/// The deepest penetration of a manifold's contacts.
pub open spec fn spec_deepest(pens: Seq<i64>) -> int
    decreases pens.len(),
{
    if pens.len() <= 1 {
        pens[0] as int
    } else {
        let rest = spec_deepest(pens.drop_last());
        if pens.last() > rest {
            pens.last() as int
        } else {
            rest
        }
    }
}

/// The velocity correction of one manifold against static geometry,
/// given the deepest penetration of its contacts.
pub open spec fn spec_resolve_velocity(
    vel: FxVec2,
    n: FxVec2,
    max_slope: int,
    deepest: int,
    rate: int,
) -> FxVec2 {
    let climb = spec_climbable(n, max_slope);
    if deepest > 0 {
        if climb {
            // Track the slope: the vertical speed may not drop below
            // the speed the slope itself imposes on the horizontal
            // motion, -vel.x * n.x / n.y (the slope tangent is
            // |n.x| / n.y).
            let floor_y = spec_div_trunc(-(vel.x * n.x), n.y as int);
            FxVec2 {
                x: vel.x,
                y: spec_clamp_vel(
                    if vel.y as int > floor_y {
                        vel.y as int
                    } else {
                        floor_y
                    },
                ) as i64,
            }
        } else {
            // Collide-and-slide: reject the velocity along the normal,
            // unless already separating.
            let d = spec_dot(vel, n);
            if d > 0 {
                vel
            } else {
                let nn = n.x * n.x + n.y * n.y;
                FxVec2 {
                    x: spec_clamp_vel(vel.x - spec_div_trunc(d * n.x, nn)) as i64,
                    y: spec_clamp_vel(vel.y - spec_div_trunc(d * n.y, nn)) as i64,
                }
            }
        }
    } else {
        // Speculative contact: cancel exactly the part of the closing
        // speed that would penetrate within one tick.
        let ns = spec_div_trunc(spec_dot(vel, n), SCALE as int);
        if ns > 0 {
            vel
        } else {
            let mag = ns - deepest * rate;
            let ix = spec_div_trunc(mag * n.x, SCALE as int);
            let iy = spec_div_trunc(mag * n.y, SCALE as int);
            if climb {
                let down = if iy < 0 {
                    iy
                } else {
                    0
                };
                FxVec2 { x: vel.x, y: spec_clamp_vel(vel.y - down) as i64 }
            } else {
                let up = if iy > 0 {
                    iy
                } else {
                    0
                };
                FxVec2 {
                    x: spec_clamp_vel(vel.x - ix) as i64,
                    y: spec_clamp_vel(vel.y - up) as i64,
                }
            }
        }
    }
}

/// The full effect of one manifold on its character: every penetrating
/// contact pushes the position out, then — only against a static body
/// — the velocity is corrected.
pub open spec fn spec_resolve_manifold(c: CharacterState, m: ManifoldModel, rate: int)
    -> CharacterState {
    let pos1 = spec_push_contacts(c.pos, m.normal, m.penetrations);
    if m.other_dynamic {
        CharacterState { pos: pos1, ..c }
    } else {
        CharacterState {
            pos: pos1,
            vel: spec_resolve_velocity(
                c.vel,
                m.normal,
                c.movement.max_slope_angle.0 as int,
                spec_deepest(m.penetrations),
                rate,
            ),
            ..c
        }
    }
}

/// One manifold applied to the collection: its character, if it
/// exists, is resolved; a manifold naming no live character changes
/// nothing.
pub open spec fn spec_apply_manifold(
    chars: Seq<CharacterState>,
    m: ManifoldModel,
    rate: int,
) -> Seq<CharacterState> {
    if m.character < chars.len() {
        chars.update(m.character as int, spec_resolve_manifold(chars[m.character as int], m, rate))
    } else {
        chars
    }
}

/// A whole batch of manifolds applied in order.
pub open spec fn spec_resolve_all(
    chars: Seq<CharacterState>,
    ms: Seq<ManifoldModel>,
    rate: int,
) -> Seq<CharacterState>
    decreases ms.len(),
{
    if ms.len() == 0 {
        chars
    } else {
        spec_resolve_all(spec_apply_manifold(chars, ms.first(), rate), ms.drop_first(), rate)
    }
}

/// Find the deepest penetration of a manifold's contacts.
fn deepest_penetration(pens: &Vec<i64>) -> (r: i64)
    requires
        pens@.len() >= 1,
    ensures
        r == spec_deepest(pens@),
{
    let mut r: i64 = pens[0];
    let mut k: usize = 1;
    while k < pens.len()
        invariant
            1 <= k <= pens@.len(),
            r == spec_deepest(pens@.take(k as int)),
        decreases pens@.len() - k,
    {
        let p = pens[k];
        proof {
            assert(pens@.take(k + 1).drop_last() =~= pens@.take(k as int));
            assert(pens@.take(k + 1).last() == pens@[k as int]);
        }
        if p > r {
            r = p;
        }
        k += 1;
    }
    proof {
        assert(pens@.take(pens@.len() as int) =~= pens@);
    }
    r
}

/// Correct a velocity against one static contact.
fn resolve_velocity(vel: FxVec2, n: FxVec2, max_slope: i64, deepest: i64, rate: u64) -> (r: FxVec2)
    requires
        -VEL_LIMIT <= vel.x <= VEL_LIMIT,
        -VEL_LIMIT <= vel.y <= VEL_LIMIT,
        n.x * n.x + n.y * n.y == SCALE * SCALE,
        0 <= max_slope <= TUNABLE_LIMIT,
        -PEN_LIMIT <= deepest <= PEN_LIMIT,
        1 <= rate <= MAX_TICK_RATE,
    ensures
        r == spec_resolve_velocity(vel, n, max_slope as int, deepest as int, rate as int),
        -VEL_LIMIT <= r.x <= VEL_LIMIT,
        -VEL_LIMIT <= r.y <= VEL_LIMIT,
{
    proof {
        assert(-SCALE <= n.x <= SCALE && -SCALE <= n.y <= SCALE) by (nonlinear_arith)
            requires
                n.x * n.x + n.y * n.y == SCALE * SCALE,
        ;
    }
    let climb = crate::geometry::climbable(n, max_slope);
    if deepest > 0 {
        if climb {
            proof {
                lemma_mul_bound(vel.x as int, n.x as int, VEL_LIMIT as int, SCALE as int);
            }
            let floor_y: i64 = div_trunc(-(vel.x * n.x), n.y);
            let vy: i64 = clamp_vel(
                if vel.y > floor_y {
                    vel.y
                } else {
                    floor_y
                },
            );
            FxVec2 { x: vel.x, y: vy }
        } else {
            let d: i64 = dot_vel_normal(vel, n);
            if d > 0 {
                vel
            } else {
                proof {
                    lemma_mul_bound(n.x as int, n.x as int, SCALE as int, SCALE as int);
                    lemma_mul_bound(n.y as int, n.y as int, SCALE as int, SCALE as int);
                }
                let nn: i64 = n.x * n.x + n.y * n.y;
                proof {
                    lemma_mul_bound(d as int, n.x as int, 2_000_000_000_000, SCALE as int);
                    lemma_mul_bound(d as int, n.y as int, 2_000_000_000_000, SCALE as int);
                    crate::math::lemma_div_trunc_shrinks(d * n.x, nn as int);
                    crate::math::lemma_div_trunc_shrinks(d * n.y, nn as int);
                }
                let vx: i64 = clamp_vel(vel.x - div_trunc(d * n.x, nn));
                let vy: i64 = clamp_vel(vel.y - div_trunc(d * n.y, nn));
                FxVec2 { x: vx, y: vy }
            }
        }
    } else {
        let ns: i64 = div_trunc(dot_vel_normal(vel, n), SCALE);
        proof {
            crate::math::lemma_div_trunc_shrinks(spec_dot(vel, n), SCALE as int);
        }
        if ns > 0 {
            vel
        } else {
            proof {
                lemma_mul_bound(deepest as int, rate as int, PEN_LIMIT as int, 1000);
            }
            let mag: i64 = ns - deepest * (rate as i64);
            proof {
                lemma_mul_bound(mag as int, n.x as int, 20_000_000_000_000, SCALE as int);
                lemma_mul_bound(mag as int, n.y as int, 20_000_000_000_000, SCALE as int);
                crate::math::lemma_div_trunc_shrinks(mag * n.x, SCALE as int);
                crate::math::lemma_div_trunc_shrinks(mag * n.y, SCALE as int);
            }
            let ix: i64 = div_trunc(mag * n.x, SCALE);
            let iy: i64 = div_trunc(mag * n.y, SCALE);
            if climb {
                let down: i64 = if iy < 0 {
                    iy
                } else {
                    0
                };
                FxVec2 { x: vel.x, y: clamp_vel(vel.y - down) }
            } else {
                let up: i64 = if iy > 0 {
                    iy
                } else {
                    0
                };
                FxVec2 { x: clamp_vel(vel.x - ix), y: clamp_vel(vel.y - up) }
            }
        }
    }
}

/// Resolve one manifold against one character.
fn resolve_manifold_char(c: CharacterState, m: &ContactManifold, rate: u64) -> (r: CharacterState)
    requires
        spec_char_wf(c),
        spec_manifold_wf(m@),
        1 <= rate <= MAX_TICK_RATE,
    ensures
        r == spec_resolve_manifold(c, m@, rate as int),
        spec_char_wf(r),
{
    let mut pos = c.pos;
    let mut k: usize = 0;
    let n = m.normal;
    proof {
        assert(-SCALE <= n.x <= SCALE && -SCALE <= n.y <= SCALE) by (nonlinear_arith)
            requires
                n.x * n.x + n.y * n.y == SCALE * SCALE,
        ;
        assert(m.penetrations@.skip(0) =~= m.penetrations@);
    }
    while k < m.penetrations.len()
        invariant
            0 <= k <= m.penetrations@.len(),
            -SCALE <= n.x <= SCALE,
            -SCALE <= n.y <= SCALE,
            n == m.normal,
            spec_manifold_wf(m@),
            -COORD_LIMIT <= pos.x <= COORD_LIMIT,
            -COORD_LIMIT <= pos.y <= COORD_LIMIT,
            spec_push_contacts(pos, n, m.penetrations@.skip(k as int)) == spec_push_contacts(
                c.pos,
                n,
                m.penetrations@,
            ),
        decreases m.penetrations@.len() - k,
    {
        let pen = m.penetrations[k];
        proof {
            assert(m.penetrations@.skip(k as int).first() == m.penetrations@[k as int]);
            assert(m.penetrations@.skip(k as int).drop_first() =~= m.penetrations@.skip(k + 1));
        }
        if pen > 0 {
            proof {
                lemma_mul_bound(n.x as int, pen as int, SCALE as int, PEN_LIMIT as int);
                lemma_mul_bound(n.y as int, pen as int, SCALE as int, PEN_LIMIT as int);
            }
            let px: i64 = clamp_coord(pos.x + div_trunc(n.x * pen, SCALE));
            let py: i64 = clamp_coord(pos.y + div_trunc(n.y * pen, SCALE));
            pos = FxVec2 { x: px, y: py };
        }
        k += 1;
    }
    proof {
        assert(m.penetrations@.skip(m.penetrations@.len() as int) =~= Seq::<i64>::empty());
    }
    let c1 = CharacterState { pos, ..c };
    if m.other_dynamic {
        c1
    } else {
        let deepest = deepest_penetration(&m.penetrations);
        proof {
            assert(-PEN_LIMIT <= spec_deepest(m.penetrations@) <= PEN_LIMIT) by {
                lemma_deepest_bounded(m.penetrations@);
            }
        }
        let vel = resolve_velocity(c1.vel, n, c.movement.max_slope_angle.0, deepest, rate);
        CharacterState { vel, ..c1 }
    }
}

/// The deepest penetration of a bounded manifold is itself bounded.
proof fn lemma_deepest_bounded(pens: Seq<i64>)
    requires
        pens.len() >= 1,
        forall|k: int| 0 <= k < pens.len() ==> -PEN_LIMIT <= #[trigger] pens[k] <= PEN_LIMIT,
    ensures
        -PEN_LIMIT <= spec_deepest(pens) <= PEN_LIMIT,
    decreases pens.len(),
{
    if pens.len() > 1 {
        assert(forall|k: int|
            0 <= k < pens.drop_last().len() ==> -PEN_LIMIT <= #[trigger] pens.drop_last()[k]
                <= PEN_LIMIT);
        lemma_deepest_bounded(pens.drop_last());
    }
}

/// Resolve a batch of contact manifolds against the character
/// collection, in the order the narrow phase produced them.  Every
/// peer calls this with identically ordered manifolds, so the
/// correction is bit-identical everywhere.
pub fn kinematic_controller_collisions(
    chars: &mut Vec<CharacterState>,
    manifolds: &Vec<ContactManifold>,
    rate: u64,
)
    requires
        forall|i: int| 0 <= i < old(chars)@.len() ==> spec_char_wf(#[trigger] old(chars)@[i]),
        forall|i: int|
            0 <= i < manifolds@.len() ==> spec_manifold_wf(#[trigger] manifolds@[i]@),
        1 <= rate <= MAX_TICK_RATE,
    ensures
        final(chars)@ == spec_resolve_all(
            old(chars)@,
            spec_manifold_models(manifolds@),
            rate as int,
        ),
        forall|i: int| 0 <= i < final(chars)@.len() ==> spec_char_wf(#[trigger] final(chars)@[i]),
{
    let ghost chars0 = chars@;
    let ghost models = spec_manifold_models(manifolds@);
    proof {
        assert(models.skip(0) =~= models);
    }
    let mut i: usize = 0;
    while i < manifolds.len()
        invariant
            0 <= i <= manifolds@.len(),
            models == spec_manifold_models(manifolds@),
            chars@.len() == chars0.len(),
            1 <= rate <= MAX_TICK_RATE,
            forall|j: int|
                0 <= j < manifolds@.len() ==> spec_manifold_wf(#[trigger] manifolds@[j]@),
            forall|j: int| 0 <= j < chars@.len() ==> spec_char_wf(#[trigger] chars@[j]),
            spec_resolve_all(chars@, models.skip(i as int), rate as int) == spec_resolve_all(
                chars0,
                models,
                rate as int,
            ),
        decreases manifolds@.len() - i,
    {
        proof {
            assert(models.skip(i as int).first() == models[i as int]);
            assert(models.skip(i as int).drop_first() =~= models.skip(i + 1));
        }
        let target = manifolds[i].character;
        if target < chars.len() {
            let c = chars[target];
            let c1 = resolve_manifold_char(c, &manifolds[i], rate);
            chars.set(target, c1);
        }
        i += 1;
    }
    proof {
        assert(models.skip(models.len() as int) =~= Seq::<ManifoldModel>::empty());
    }
}

/// The manifolds of one character against the whole level, in rect
/// creation order.
pub open spec fn spec_char_contacts(
    c: CharacterState,
    handle: usize,
    rects: Seq<StaticRect>,
) -> Seq<ManifoldModel>
    decreases rects.len(),
{
    if rects.len() == 0 {
        Seq::empty()
    } else {
        let rest = spec_char_contacts(c, handle, rects.drop_last());
        match spec_rect_manifold(c, rects.last()) {
            Option::Some(p) => rest.push(
                ManifoldModel {
                    character: handle,
                    other_dynamic: false,
                    normal: p.0,
                    penetrations: seq![p.1],
                },
            ),
            Option::None => rest,
        }
    }
}

/// The manifolds of the whole collection against the whole level:
/// characters in ascending handle order, rects in creation order.
pub open spec fn spec_gen_contacts(chars: Seq<CharacterState>, rects: Seq<StaticRect>) -> Seq<
    ManifoldModel,
>
    decreases chars.len(),
{
    if chars.len() == 0 {
        Seq::empty()
    } else {
        spec_gen_contacts(chars.drop_last(), rects) + spec_char_contacts(
            chars.last(),
            (chars.len() - 1) as usize,
            rects,
        )
    }
}

/// Run the narrow phase for every character against the level,
/// producing the manifold batch the resolver consumes, in a fixed
/// deterministic order.
pub fn gen_contacts(chars: &Vec<CharacterState>, geom: &StaticGeometry) -> (r: Vec<ContactManifold>)
    requires
        forall|i: int| 0 <= i < chars@.len() ==> spec_char_wf(#[trigger] chars@[i]),
        spec_geom_wf(geom.rects@),
    ensures
        spec_manifold_models(r@) == spec_gen_contacts(chars@, geom.rects@),
        forall|i: int| 0 <= i < r@.len() ==> spec_manifold_wf(#[trigger] r@[i]@),
{
    let mut r: Vec<ContactManifold> = Vec::new();
    let mut i: usize = 0;
    while i < chars.len()
        invariant
            0 <= i <= chars@.len(),
            spec_geom_wf(geom.rects@),
            forall|j: int| 0 <= j < chars@.len() ==> spec_char_wf(#[trigger] chars@[j]),
            spec_manifold_models(r@) == spec_gen_contacts(chars@.take(i as int), geom.rects@),
            forall|j: int| 0 <= j < r@.len() ==> spec_manifold_wf(#[trigger] r@[j]@),
        decreases chars@.len() - i,
    {
        let c = chars[i];
        let nrects = geom.rects.len();
        proof {
            assert(geom.rects@.take(0) =~= Seq::<StaticRect>::empty());
            assert(spec_gen_contacts(chars@.take(i as int), geom.rects@) + spec_char_contacts(
                c,
                i,
                geom.rects@.take(0),
            ) =~= spec_gen_contacts(chars@.take(i as int), geom.rects@));
        }
        let mut j: usize = 0;
        while j < nrects
            invariant
                0 <= j <= nrects,
                0 <= i < chars@.len(),
                nrects == geom.rects@.len(),
                c == chars@[i as int],
                spec_geom_wf(geom.rects@),
                spec_char_wf(c),
                spec_manifold_models(r@) == spec_gen_contacts(chars@.take(i as int), geom.rects@)
                    + spec_char_contacts(c, i, geom.rects@.take(j as int)),
                forall|k: int| 0 <= k < r@.len() ==> spec_manifold_wf(#[trigger] r@[k]@),
            decreases nrects - j,
        {
            let rect = geom.rects[j];
            proof {
                assert(geom.rects@.take(j + 1).drop_last() =~= geom.rects@.take(j as int));
                assert(geom.rects@.take(j + 1).last() == geom.rects@[j as int]);
            }
            match rect_manifold(&c, &rect) {
                Option::Some(p) => {
                    let mut pens: Vec<i64> = Vec::new();
                    pens.push(p.1);
                    proof {
                        assert(pens@ =~= seq![p.1]);
                    }
                    let m = ContactManifold {
                        character: i,
                        other_dynamic: false,
                        normal: p.0,
                        penetrations: pens,
                    };
                    let ghost rb = r@;
                    r.push(m);
                    proof {
                        let a = spec_gen_contacts(chars@.take(i as int), geom.rects@);
                        let bj = spec_char_contacts(c, i, geom.rects@.take(j as int));
                        let mm = ManifoldModel {
                            character: i,
                            other_dynamic: false,
                            normal: p.0,
                            penetrations: seq![p.1],
                        };
                        assert(r@.last()@ == mm);
                        assert(spec_char_contacts(c, i, geom.rects@.take(j + 1)) == bj.push(mm));
                        assert(spec_manifold_models(r@) =~= spec_manifold_models(rb).push(mm));
                        assert((a + bj).push(mm) =~= a + bj.push(mm));
                        assert(spec_manifold_models(r@) =~= a + bj.push(mm));
                    }
                },
                Option::None => {
                    proof {
                        assert(spec_char_contacts(c, i, geom.rects@.take(j + 1))
                            == spec_char_contacts(c, i, geom.rects@.take(j as int)));
                    }
                },
            }
            j += 1;
        }
        proof {
            assert(geom.rects@.take(geom.rects@.len() as int) =~= geom.rects@);
            assert(chars@.take(i + 1).drop_last() =~= chars@.take(i as int));
            assert(chars@.take(i + 1).last() == chars@[i as int]);
            assert(spec_manifold_models(r@) =~= spec_gen_contacts(
                chars@.take(i + 1),
                geom.rects@,
            ));
        }
        i += 1;
    }
    proof {
        assert(chars@.take(chars@.len() as int) =~= chars@);
    }
    r
}

} // verus!
