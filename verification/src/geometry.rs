//! Static level geometry and the narrow phase against it.
//!
//! The level is a fixed list of axis-aligned boxes, iterated in creation
//! order — never a hash-keyed collection — so every peer visits the same
//! contacts in the same order.  The narrow phase produces speculative
//! contact manifolds: a manifold exists as soon as a character is within
//! the speculative margin of a box, with a penetration depth that is
//! positive once the shapes overlap and negative (the separation) while
//! they merely approach each other.
//!
//! Contact normals are unit vectors in fixed point (their squared length
//! is exactly `SCALE * SCALE`), pointing away from the static body.

use vstd::prelude::*;

use crate::character::CharacterState;
use crate::character::ColliderShape;
use crate::character::spec_shape_wf;
use crate::math::COORD_LIMIT;
use crate::math::FxVec2;
use crate::math::PEN_LIMIT;
use crate::math::SCALE;
use crate::math::TUNABLE_LIMIT;
use crate::math::lemma_mul_bound;
use crate::math::spec_abs;

verus! {

/// How far outside two shapes may be while still producing a
/// speculative contact, in fixed-point units.
pub const SPECULATIVE_MARGIN: i64 = 1000;

/// How far below the character the ground probe casts.
pub const PROBE_DISTANCE: i64 = 500;

/// How deep the probe shape may sink into a surface while the surface
/// still counts as ground.
pub const GROUND_TOLERANCE: i64 = 500;

/// One axis-aligned box of static level geometry.
#[derive(Clone, Copy, PartialEq, Eq, Structural, Debug)]
pub struct StaticRect {
    pub center: FxVec2,
    pub half: ColliderShape,
}

/// A rect the simulation accepts: center inside the representable
/// world, well-formed half-extents.
pub open spec fn spec_rect_wf(r: StaticRect) -> bool {
    &&& -COORD_LIMIT <= r.center.x <= COORD_LIMIT
    &&& -COORD_LIMIT <= r.center.y <= COORD_LIMIT
    &&& spec_shape_wf(r.half)
}

/// The static geometry of a level, in creation order.
pub struct StaticGeometry {
    pub rects: Vec<StaticRect>,
}

/// Geometry the simulation accepts: every rect well-formed.
pub open spec fn spec_geom_wf(g: Seq<StaticRect>) -> bool {
    forall|j: int| 0 <= j < g.len() ==> spec_rect_wf(#[trigger] g[j])
}

/// Whether a contact surface is climbable: its normal leans no further
/// from "up" than the character's steepest climbable slope.  The slope
/// of a surface with normal `n` has tangent `|n.x| / n.y`, so the
/// surface is climbable exactly when `n.y` is positive and
/// `|n.x| * SCALE <= n.y * max_slope` for the slope tangent in
/// thousandths.  A surface exactly at the tunable is climbable; any
/// steeper one is not.
pub open spec fn spec_climbable(n: FxVec2, max_slope: int) -> bool {
    &&& n.y > 0
    &&& spec_abs(n.x as int) * (SCALE as int) <= n.y * max_slope
}

/// Classify a contact normal against a maximum slope tangent.
pub fn climbable(n: FxVec2, max_slope: i64) -> (r: bool)
    requires
        -TUNABLE_LIMIT <= n.x <= TUNABLE_LIMIT,
        -TUNABLE_LIMIT <= n.y <= TUNABLE_LIMIT,
        0 <= max_slope <= TUNABLE_LIMIT,
    ensures
        r == spec_climbable(n, max_slope as int),
{
    proof {
        lemma_mul_bound(n.y as int, max_slope as int, TUNABLE_LIMIT as int, TUNABLE_LIMIT as int);
    }
    let ax: i64 = if n.x >= 0 {
        n.x
    } else {
        -n.x
    };
    n.y > 0 && ax * SCALE <= n.y * max_slope
}

/// The ground-detection boundary is exact: a surface whose slope
/// tangent equals the character's tunable exactly (`|n.x| * SCALE ==
/// n.y * max_slope`) is classified climbable — so a character resting
/// on it is grounded — while a surface one fixed-point unit steeper is
/// not.
pub proof fn lemma_ground_boundary(n: FxVec2, max_slope: int)
    requires
        n.y > 0,
        0 <= max_slope,
    ensures
        spec_abs(n.x as int) * (SCALE as int) == n.y * max_slope ==> spec_climbable(n, max_slope),
        spec_abs(n.x as int) * (SCALE as int) == n.y * max_slope + 1 ==> !spec_climbable(
            n,
            max_slope,
        ),
{
}

/// The manifold the narrow phase reports for one character-rect pair,
/// before it is tagged with the character it belongs to: the contact
/// normal (away from the rect) and the penetration depth along it.
pub open spec fn spec_rect_manifold(c: CharacterState, r: StaticRect) -> Option<(FxVec2, i64)> {
    let dx = c.pos.x - r.center.x;
    let dy = c.pos.y - r.center.y;
    let px = c.collider.half_x + r.half.half_x - spec_abs(dx);
    let py = c.collider.half_y + r.half.half_y - spec_abs(dy);
    if px > -SPECULATIVE_MARGIN && py > -SPECULATIVE_MARGIN {
        if px <= py {
            Some(
                (
                    FxVec2 {
                        x: if dx >= 0 {
                            SCALE
                        } else {
                            (-SCALE) as i64
                        },
                        y: 0,
                    },
                    px as i64,
                ),
            )
        } else {
            Some(
                (
                    FxVec2 {
                        x: 0,
                        y: if dy >= 0 {
                            SCALE
                        } else {
                            (-SCALE) as i64
                        },
                    },
                    py as i64,
                ),
            )
        }
    } else {
        None
    }
}

/// Run the narrow phase for one character against one rect.  The
/// manifold's penetration is positive once the shapes overlap, and the
/// (negated) separation while the character is merely inside the
/// speculative margin; the axis of least penetration is reported, ties
/// resolved toward the x axis.
pub fn rect_manifold(c: &CharacterState, r: &StaticRect) -> (m: Option<(FxVec2, i64)>)
    requires
        crate::character::spec_char_wf(*c),
        spec_rect_wf(*r),
    ensures
        m == spec_rect_manifold(*c, *r),
        m matches Some(p) ==> -SPECULATIVE_MARGIN <= p.1 <= PEN_LIMIT && p.0.x * p.0.x + p.0.y
            * p.0.y == SCALE * SCALE,
{
    let dx: i64 = c.pos.x - r.center.x;
    let dy: i64 = c.pos.y - r.center.y;
    let adx: i64 = if dx >= 0 {
        dx
    } else {
        -dx
    };
    let ady: i64 = if dy >= 0 {
        dy
    } else {
        -dy
    };
    let px: i64 = c.collider.half_x + r.half.half_x - adx;
    let py: i64 = c.collider.half_y + r.half.half_y - ady;
    if px > -SPECULATIVE_MARGIN && py > -SPECULATIVE_MARGIN {
        if px <= py {
            let nx: i64 = if dx >= 0 {
                SCALE
            } else {
                -SCALE
            };
            proof {
                assert(nx == 1000 || nx == -1000);
                assert(nx * nx == SCALE * SCALE) by (nonlinear_arith)
                    requires
                        nx == 1000 || nx == -1000,
                ;
            }
            Some((FxVec2 { x: nx, y: 0 }, px))
        } else {
            let ny: i64 = if dy >= 0 {
                SCALE
            } else {
                -SCALE
            };
            proof {
                assert(ny == 1000 || ny == -1000);
                assert(ny * ny == SCALE * SCALE) by (nonlinear_arith)
                    requires
                        ny == 1000 || ny == -1000,
                ;
            }
            Some((FxVec2 { x: 0, y: ny }, py))
        }
    } else {
        None
    }
}

/// Whether the downward ground probe of a character hits a rect: the
/// probe shape (the slightly shrunk sensor) overlaps the rect
/// horizontally, and the character's underside sits between
/// `GROUND_TOLERANCE` below and `PROBE_DISTANCE` above the rect's top
/// face.
pub open spec fn spec_ground_hit(c: CharacterState, r: StaticRect) -> bool {
    let dx = c.pos.x - r.center.x;
    let bottom = c.pos.y - c.sensor.half_y;
    let top = r.center.y + r.half.half_y;
    &&& spec_abs(dx) < c.sensor.half_x + r.half.half_x
    &&& top - GROUND_TOLERANCE <= bottom
    &&& bottom <= top + PROBE_DISTANCE
}

/// Probe one rect for ground under a character.
pub fn ground_hit(c: &CharacterState, r: &StaticRect) -> (h: bool)
    requires
        crate::character::spec_char_wf(*c),
        spec_rect_wf(*r),
    ensures
        h == spec_ground_hit(*c, *r),
{
    let dx: i64 = c.pos.x - r.center.x;
    let adx: i64 = if dx >= 0 {
        dx
    } else {
        -dx
    };
    let bottom: i64 = c.pos.y - c.sensor.half_y;
    let top: i64 = r.center.y + r.half.half_y;
    adx < c.sensor.half_x + r.half.half_x && top - GROUND_TOLERANCE <= bottom && bottom <= top
        + PROBE_DISTANCE
}

/// Whether any rect of the level grounds the character: some rect is
/// hit by the probe and its top face (normal straight up) is within the
/// character's climbable slope.
pub open spec fn spec_probe_grounded(c: CharacterState, g: Seq<StaticRect>) -> bool {
    exists|j: int|
        0 <= j < g.len() && spec_ground_hit(c, #[trigger] g[j]) && spec_climbable(
            FxVec2 { x: 0, y: SCALE },
            c.movement.max_slope_angle.0 as int,
        )
}

/// Probe the whole level for ground under a character.
pub fn probe_grounded(c: &CharacterState, g: &StaticGeometry) -> (r: bool)
    requires
        crate::character::spec_char_wf(*c),
        spec_geom_wf(g.rects@),
    ensures
        r == spec_probe_grounded(*c, g.rects@),
{
    let n_up = FxVec2 { x: 0, y: SCALE };
    let mut j: usize = 0;
    while j < g.rects.len()
        invariant
            0 <= j <= g.rects.len(),
            crate::character::spec_char_wf(*c),
            spec_geom_wf(g.rects@),
            n_up == (FxVec2 { x: 0, y: SCALE }),
            !(exists|k: int|
                0 <= k < j && spec_ground_hit(*c, #[trigger] g.rects@[k]) && spec_climbable(
                    n_up,
                    c.movement.max_slope_angle.0 as int,
                )),
        decreases g.rects.len() - j,
    {
        let hit = ground_hit(c, &g.rects[j]);
        if hit && climbable(n_up, c.movement.max_slope_angle.0) {
            return true;
        }
        j += 1;
    }
    false
}

} // verus!
