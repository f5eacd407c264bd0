//! Per-tick input encoding and decoding.
//!
//! A peer's raw control state is packed into one byte — one bit per
//! logical action — exchanged over the wire, and decoded by the
//! simulation into a movement intent.  Encoding is pure and total:
//! every control combination produces a mask, simultaneous keys produce
//! the OR of their bits, and decoding projects the mask back onto the
//! individual actions.

use vstd::prelude::*;

use crate::math::FxVec2;
use crate::math::SCALE;

verus! {

/// Bit for the "up" direction.
pub const INPUT_UP: u8 = 1;

/// Bit for the "down" direction.
pub const INPUT_DOWN: u8 = 2;

/// Bit for the "left" direction.
pub const INPUT_LEFT: u8 = 4;

/// Bit for the "right" direction.
pub const INPUT_RIGHT: u8 = 8;

/// Bit for the primary action (jump).
pub const INPUT_FIRE: u8 = 16;

/// Bit for the secondary action.
pub const INPUT_USE: u8 = 32;

/// The raw local control state, one flag per logical action.
#[derive(Clone, Copy, PartialEq, Eq, Structural, Debug)]
pub struct RawControls {
    pub up: bool,
    pub down: bool,
    pub left: bool,
    pub right: bool,
    pub fire: bool,
    pub use_action: bool,
}

/// The input of one peer for one tick: the packed action bitmask and
/// whether the peer was still connected when the frame was produced.
/// A disconnected peer's frame is all-zero with `connected == false`.
#[derive(Clone, Copy, PartialEq, Eq, Structural, Debug)]
pub struct InputFrame {
    pub mask: u8,
    pub connected: bool,
}

/// The frame a disconnected peer contributes.
pub open spec fn spec_disconnected_frame() -> InputFrame {
    InputFrame { mask: 0, connected: false }
}

/// Build the frame that stands in for a disconnected peer.
pub fn disconnected_frame() -> (r: InputFrame)
    ensures
        r == spec_disconnected_frame(),
{
    InputFrame { mask: 0, connected: false }
}

/// The mask that `encode` produces: the OR of the bits of the held
/// actions.
pub open spec fn spec_encode(c: RawControls) -> u8 {
    (if c.up {
        INPUT_UP
    } else {
        0
    }) | (if c.down {
        INPUT_DOWN
    } else {
        0
    }) | (if c.left {
        INPUT_LEFT
    } else {
        0
    }) | (if c.right {
        INPUT_RIGHT
    } else {
        0
    }) | (if c.fire {
        INPUT_FIRE
    } else {
        0
    }) | (if c.use_action {
        INPUT_USE
    } else {
        0
    })
}

/// Pack the raw control state into a one-byte action mask.
pub fn encode(c: RawControls) -> (r: u8)
    ensures
        r == spec_encode(c),
{
    let u: u8 = if c.up { INPUT_UP } else { 0 };
    let d: u8 = if c.down { INPUT_DOWN } else { 0 };
    let l: u8 = if c.left { INPUT_LEFT } else { 0 };
    let r: u8 = if c.right { INPUT_RIGHT } else { 0 };
    let f: u8 = if c.fire { INPUT_FIRE } else { 0 };
    let s: u8 = if c.use_action { INPUT_USE } else { 0 };
    u | d | l | r | f | s
}

/// Whether the mask holds the given action bit.
pub open spec fn spec_has_bit(mask: u8, bit: u8) -> bool {
    mask & bit != 0
}

/// Test one action bit of a mask.
pub fn has_bit(mask: u8, bit: u8) -> (r: bool)
    ensures
        r == spec_has_bit(mask, bit),
{
    mask & bit != 0
}

/// The movement intent a mask decodes to: one fixed-point unit per held
/// direction, opposite directions cancelling.
pub open spec fn spec_decode_direction(mask: u8) -> FxVec2 {
    FxVec2 {
        x: ((if spec_has_bit(mask, INPUT_RIGHT) {
            SCALE as int
        } else {
            0
        }) - (if spec_has_bit(mask, INPUT_LEFT) {
            SCALE as int
        } else {
            0
        })) as i64,
        y: ((if spec_has_bit(mask, INPUT_UP) {
            SCALE as int
        } else {
            0
        }) - (if spec_has_bit(mask, INPUT_DOWN) {
            SCALE as int
        } else {
            0
        })) as i64,
    }
}

/// Decode the directional bits of a mask into a 2D intent vector
/// (right is +x, up is +y).
pub fn decode_direction(mask: u8) -> (r: FxVec2)
    ensures
        r == spec_decode_direction(mask),
{
    let mut x: i64 = 0;
    let mut y: i64 = 0;
    if has_bit(mask, INPUT_RIGHT) {
        x += SCALE;
    }
    if has_bit(mask, INPUT_LEFT) {
        x -= SCALE;
    }
    if has_bit(mask, INPUT_UP) {
        y += SCALE;
    }
    if has_bit(mask, INPUT_DOWN) {
        y -= SCALE;
    }
    FxVec2 { x, y }
}

/// Whether the mask requests a jump.
pub open spec fn spec_decode_jump(mask: u8) -> bool {
    spec_has_bit(mask, INPUT_FIRE)
}

/// Decode the jump action of a mask.
pub fn decode_jump(mask: u8) -> (r: bool)
    ensures
        r == spec_decode_jump(mask),
{
    has_bit(mask, INPUT_FIRE)
}

/// Encoding is the exact inverse of decoding: each control flag is
/// recovered from its bit of the encoded mask, so `decode` is the
/// inverse projection of `encode` for every control state.
pub proof fn lemma_codec_inverse(c: RawControls)
    ensures
        spec_has_bit(spec_encode(c), INPUT_UP) == c.up,
        spec_has_bit(spec_encode(c), INPUT_DOWN) == c.down,
        spec_has_bit(spec_encode(c), INPUT_LEFT) == c.left,
        spec_has_bit(spec_encode(c), INPUT_RIGHT) == c.right,
        spec_has_bit(spec_encode(c), INPUT_FIRE) == c.fire,
        spec_has_bit(spec_encode(c), INPUT_USE) == c.use_action,
{
    let u: u8 = if c.up { 1 } else { 0 };
    let d: u8 = if c.down { 2 } else { 0 };
    let l: u8 = if c.left { 4 } else { 0 };
    let r: u8 = if c.right { 8 } else { 0 };
    let f: u8 = if c.fire { 16 } else { 0 };
    let s: u8 = if c.use_action { 32 } else { 0 };
    let m: u8 = u | d | l | r | f | s;
    assert((m & 1 != 0) == (u == 1) && (m & 2 != 0) == (d == 2) && (m & 4 != 0) == (l == 4) && (m
        & 8 != 0) == (r == 8) && (m & 16 != 0) == (f == 16) && (m & 32 != 0) == (s == 32))
        by (bit_vector)
        requires
            m == u | d | l | r | f | s,
            u == 1 || u == 0,
            d == 2 || d == 0,
            l == 4 || l == 0,
            r == 8 || r == 0,
            f == 16 || f == 0,
            s == 32 || s == 0,
    ;
}

} // verus!
