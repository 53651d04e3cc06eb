//! Bit-level helpers shared by the decoder, the ALU and the register files.
use bit::BitIndex;
use vstd::prelude::*;

verus! {

/// Bit `pos` of `x`, bit 0 being the least significant.
pub open spec fn bit(x: u32, pos: nat) -> bool {
    x & (1u32 << pos) != 0
}

/// The bits `lo..hi` of `x`, moved down to bit 0.
pub open spec fn bits(x: u32, lo: nat, hi: nat) -> u32 {
    (x << ((32 - hi) as u32)) >> ((32 - hi + lo) as u32)
}

/// Reads one bit through `bit::BitIndex::bit` for `u32`. Trusted: the result
/// is `x & (1 << pos) != 0`; positions of 32 and above make the outside
/// function panic and are excluded.
#[verifier::external_body]
pub(crate) fn get_bit(x: u32, pos: usize) -> (b: bool)
    requires
        pos < 32,
    ensures
        b == bit(x, pos as nat),
{
    x.bit(pos)
}

/// Reads a bit field through `bit::BitIndex::bit_range` for `u32`. Trusted:
/// the result is `x << (32 - hi) >> (32 - hi + lo)`; an empty range or an end
/// above 32 makes the outside function panic and is excluded.
#[verifier::external_body]
pub(crate) fn get_bits(x: u32, lo: usize, hi: usize) -> (r: u32)
    requires
        lo < hi <= 32,
    ensures
        r == bits(x, lo as nat, hi as nat),
{
    x.bit_range(lo..hi)
}

/// The unsigned reading of a 32-bit two's complement value.
pub open spec fn u32_of(v: i32) -> u32 {
    if v >= 0 {
        v as u32
    } else {
        (v + 0x1_0000_0000) as u32
    }
}

/// The two's complement reading of a 32-bit word.
pub open spec fn i32_of(u: u32) -> i32 {
    if u < 0x8000_0000 {
        u as i32
    } else {
        (u - 0x1_0000_0000) as i32
    }
}

proof fn lemma_casts(v: i32, u: u32)
    by (bit_vector)
    ensures
        v >= 0 ==> v as u32 == v,
        v < 0 ==> v as u32 == v + 0x1_0000_0000,
        u < 0x8000_0000 ==> u as i32 == u,
        u >= 0x8000_0000 ==> u as i32 == u - 0x1_0000_0000,
{
}

/// Reinterprets a signed word as unsigned.
pub fn to_u32(v: i32) -> (u: u32)
    ensures
        u == u32_of(v),
        i32_of(u) == v,
{
    proof {
        lemma_casts(v, 0);
    }
    v as u32
}

/// Reinterprets an unsigned word as signed.
pub fn to_i32(u: u32) -> (v: i32)
    ensures
        v == i32_of(u),
        u32_of(v) == u,
{
    proof {
        lemma_casts(0, u);
    }
    u as i32
}

/// `x` rotated right by `n` bit positions, `n` taken modulo 32.
pub open spec fn rotate_right(x: u32, n: u32) -> u32 {
    if n % 32 == 0 {
        x
    } else {
        (x >> (n % 32)) | (x << ((32 - n % 32) as u32))
    }
}

/// Rotates `x` right by `n` bit positions, `n` taken modulo 32.
pub fn ror(x: u32, n: u32) -> (r: u32)
    ensures
        r == rotate_right(x, n),
{
    let k: u32 = n % 32;
    if k == 0 {
        x
    } else {
        (x >> k) | (x << (32 - k))
    }
}

} // verus!

verus! {

/// Every instruction field is as wide as its bit range says.
pub proof fn lemma_field_bounds(x: u32)
    by (bit_vector)
    ensures
        bits(x, 28, 32) < 16,
        bits(x, 21, 25) < 16,
        bits(x, 16, 20) < 16,
        bits(x, 12, 16) < 16,
        bits(x, 8, 12) < 16,
        bits(x, 0, 4) < 16,
        bits(x, 5, 7) < 4,
        bits(x, 7, 12) < 32,
        bits(x, 0, 12) < 0x1000,
        bits(x, 0, 24) < 0x100_0000,
        x & 0xf < 16,
        x & 0xff < 256,
        x & 0xffff < 0x1_0000,
        (x & 0x60) >> 5u32 < 4,
        bits(x, 0, 4) == x & 0xf,
        bits(x, 0, 24) == x & 0xff_ffff,
{
}

} // verus!
