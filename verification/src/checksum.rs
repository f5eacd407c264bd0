//! Desync checksums over canonical simulation state.
//!
//! Peers compare a small Fletcher-16 hash of the canonical rollback
//! fields — every character's position, serialized to a fixed
//! little-endian byte layout — to detect divergence.  The byte layout
//! and the hash are pure functions of the state, so two peers holding
//! bit-identical state always report equal checksums.

use vstd::prelude::*;

use crate::character::CharacterState;
use crate::math::COORD_LIMIT;

verus! {

/// Offset added to a coordinate before serialization so the serialized
/// value is nonnegative (two to the sixty-second power).
pub const COORD_OFFSET: i64 = 4611686018427387904;

/// The running Fletcher-16 sums over a byte sequence, each reduced
/// modulo 255 as in the classic definition.
pub open spec fn spec_fletcher_sums(data: Seq<u8>) -> (int, int)
    decreases data.len(),
{
    if data.len() == 0 {
        (0, 0)
    } else {
        let rest = spec_fletcher_sums(data.drop_last());
        let s1 = (rest.0 + data.last()) % 255;
        let s2 = (rest.1 + s1) % 255;
        (s1, s2)
    }
}

/// The Fletcher-16 checksum of a byte sequence: the second running sum
/// in the high byte, the first in the low byte.
pub open spec fn spec_fletcher16(data: Seq<u8>) -> u16 {
    (spec_fletcher_sums(data).1 * 256 + spec_fletcher_sums(data).0) as u16
}

/// The running sums stay below the modulus.
pub proof fn lemma_fletcher_sums_bounded(data: Seq<u8>)
    ensures
        0 <= spec_fletcher_sums(data).0 < 255,
        0 <= spec_fletcher_sums(data).1 < 255,
    decreases data.len(),
{
    if data.len() > 0 {
        lemma_fletcher_sums_bounded(data.drop_last());
    }
}

/// Compute the Fletcher-16 checksum of a byte string.
pub fn fletcher16(data: &[u8]) -> (r: u16)
    ensures
        r == spec_fletcher16(data@),
{
    let mut sum1: u16 = 0;
    let mut sum2: u16 = 0;
    let n = data.len();
    let mut k: usize = 0;
    while k < n
        invariant
            0 <= k <= n,
            n == data@.len(),
            sum1 as int == spec_fletcher_sums(data@.take(k as int)).0,
            sum2 as int == spec_fletcher_sums(data@.take(k as int)).1,
            sum1 < 255,
            sum2 < 255,
        decreases n - k,
    {
        let byte = data[k];
        proof {
            assert(data@.take(k + 1).drop_last() =~= data@.take(k as int));
            assert(data@.take(k + 1).last() == data@[k as int]);
        }
        sum1 = (sum1 + byte as u16) % 255;
        sum2 = (sum2 + sum1) % 255;
        k += 1;
    }
    proof {
        assert(data@.take(data@.len() as int) =~= data@);
        assert((sum2 as u16) << 8u16 | sum1 == sum2 * 256 + sum1) by (bit_vector)
            requires
                sum1 < 255u16,
                sum2 < 255u16,
        ;
    }
    (sum2 << 8u16) | sum1
}

/// A nonnegative value laid out as `count` little-endian bytes.
pub open spec fn spec_le_bytes(u: int, count: nat) -> Seq<u8>
    decreases count,
{
    if count == 0 {
        Seq::empty()
    } else {
        seq![(u % 256) as u8] + spec_le_bytes(u / 256, (count - 1) as nat)
    }
}

/// The canonical serialization of one coordinate: the coordinate
/// shifted by [`COORD_OFFSET`] (making it nonnegative), as eight
/// little-endian bytes.
pub open spec fn spec_coord_bytes(v: i64) -> Seq<u8> {
    spec_le_bytes(v + COORD_OFFSET, 8)
}

/// Append the canonical bytes of one coordinate.
pub fn push_coord_bytes(out: &mut Vec<u8>, v: i64)
    requires
        -COORD_LIMIT <= v <= COORD_LIMIT,
    ensures
        final(out)@ == old(out)@ + spec_coord_bytes(v),
{
    let mut u: u64 = (v + COORD_OFFSET) as u64;
    let ghost out0 = out@;
    let mut k: usize = 0;
    while k < 8
        invariant
            0 <= k <= 8,
            out@ + spec_le_bytes(u as int, (8 - k) as nat) == out0 + spec_le_bytes(
                (v + COORD_OFFSET) as int,
                8,
            ),
        decreases 8 - k,
    {
        let ghost u_before = u as int;
        let b: u8 = (u % 256) as u8;
        out.push(b);
        u = u / 256;
        proof {
            assert(spec_le_bytes(u_before, (8 - k) as nat) =~= seq![(u_before % 256) as u8]
                + spec_le_bytes(u_before / 256, (8 - (k + 1)) as nat));
            assert(out@ + spec_le_bytes(u as int, (8 - (k + 1)) as nat) =~= out0 + spec_le_bytes(
                (v + COORD_OFFSET) as int,
                8,
            ));
        }
        k += 1;
    }
    proof {
        assert(spec_le_bytes(u as int, 0) =~= Seq::<u8>::empty());
        assert(out@ =~= out@ + Seq::<u8>::empty());
    }
}

/// The canonical byte string of a character collection: each player's
/// position, x then y, in ascending handle order.
pub open spec fn spec_canonical_bytes(chars: Seq<CharacterState>) -> Seq<u8>
    decreases chars.len(),
{
    if chars.len() == 0 {
        Seq::empty()
    } else {
        spec_canonical_bytes(chars.drop_last()) + spec_coord_bytes(chars.last().pos.x)
            + spec_coord_bytes(chars.last().pos.y)
    }
}

/// Serialize the canonical rollback fields of a character collection.
pub fn canonical_bytes(chars: &Vec<CharacterState>) -> (r: Vec<u8>)
    requires
        forall|i: int|
            0 <= i < chars@.len() ==> crate::character::spec_char_wf(#[trigger] chars@[i]),
    ensures
        r@ == spec_canonical_bytes(chars@),
{
    let mut r: Vec<u8> = Vec::new();
    let mut i: usize = 0;
    while i < chars.len()
        invariant
            0 <= i <= chars@.len(),
            forall|j: int|
                0 <= j < chars@.len() ==> crate::character::spec_char_wf(#[trigger] chars@[j]),
            r@ == spec_canonical_bytes(chars@.take(i as int)),
        decreases chars@.len() - i,
    {
        let c = chars[i];
        push_coord_bytes(&mut r, c.pos.x);
        push_coord_bytes(&mut r, c.pos.y);
        proof {
            assert(chars@.take(i + 1).drop_last() =~= chars@.take(i as int));
            assert(chars@.take(i + 1).last() == chars@[i as int]);
        }
        i += 1;
    }
    proof {
        assert(chars@.take(chars@.len() as int) =~= chars@);
    }
    r
}

/// The checksum of a character collection's canonical state.
pub open spec fn spec_state_checksum(chars: Seq<CharacterState>) -> u16 {
    spec_fletcher16(spec_canonical_bytes(chars))
}

/// Checksum the canonical rollback fields of a character collection.
pub fn state_checksum(chars: &Vec<CharacterState>) -> (r: u16)
    requires
        forall|i: int|
            0 <= i < chars@.len() ==> crate::character::spec_char_wf(#[trigger] chars@[i]),
    ensures
        r == spec_state_checksum(chars@),
{
    let bytes = canonical_bytes(chars);
    fletcher16(bytes.as_slice())
}

} // verus!
