//! Byte memories: reads that never fail, little-endian composition.
use vstd::prelude::*;

verus! {

/// The byte at `ofs`, or zero where the memory has none.
pub open spec fn mem_read_8(mem: Seq<u8>, ofs: int) -> u8 {
    if 0 <= ofs < mem.len() {
        mem[ofs]
    } else {
        0
    }
}

/// The halfword made of two bytes, the first one low.
pub open spec fn halfword_of(lo: u8, hi: u8) -> u16 {
    (lo as u16) | ((hi as u16) << 8u16)
}

/// The halfword stored at `ofs`, least significant byte first.
pub open spec fn mem_read_16(mem: Seq<u8>, ofs: int) -> u16 {
    halfword_of(mem_read_8(mem, ofs), mem_read_8(mem, ofs + 1))
}

/// The low byte of a halfword.
pub open spec fn low_byte(v: u16) -> u8 {
    (v & 0xff) as u8
}

/// The high byte of a halfword.
pub open spec fn high_byte(v: u16) -> u8 {
    (v >> 8u16) as u8
}

/// The memory with `v` stored at `ofs`; unchanged where it has no such byte.
pub open spec fn mem_write_8(mem: Seq<u8>, ofs: int, v: u8) -> Seq<u8> {
    if 0 <= ofs < mem.len() {
        mem.update(ofs, v)
    } else {
        mem
    }
}

/// The memory with the halfword `v` stored at `ofs`, least significant byte
/// first.
pub open spec fn mem_write_16(mem: Seq<u8>, ofs: int, v: u16) -> Seq<u8> {
    mem_write_8(mem_write_8(mem, ofs, low_byte(v)), ofs + 1, high_byte(v))
}

/// A halfword is made of its two bytes, and two bytes are the bytes of the
/// halfword that they make.
pub proof fn lemma_halfword_bytes(v: u16, lo: u8, hi: u8)
    by (bit_vector)
    ensures
        (v & 0xff) < 0x100,
        (v >> 8u16) < 0x100,
        ((v & 0xff) as u8 as u16) | (((v >> 8u16) as u8 as u16) << 8u16) == v,
        (((lo as u16) | ((hi as u16) << 8u16)) & 0xff) as u8 == lo,
        (((lo as u16) | ((hi as u16) << 8u16)) >> 8u16) as u8 == hi,
{
}

pub fn read_8(mem: &Vec<u8>, ofs: u64) -> (r: u8)
    ensures
        r == mem_read_8(mem@, ofs as int),
{
    if ofs < mem.len() as u64 {
        mem[ofs as usize]
    } else {
        0
    }
}

pub fn read_16(mem: &Vec<u8>, ofs: u64) -> (r: u16)
    ensures
        r == mem_read_16(mem@, ofs as int),
{
    let lo = read_8(mem, ofs);
    let hi = if ofs < u64::MAX {
        read_8(mem, ofs + 1)
    } else {
        assert(mem.len() <= u64::MAX);
        0
    };
    (lo as u16) | ((hi as u16) << 8u16)
}

pub fn write_8(mem: &mut Vec<u8>, ofs: u64, v: u8)
    ensures
        final(mem)@ == mem_write_8(old(mem)@, ofs as int, v),
        final(mem)@.len() == old(mem)@.len(),
{
    if ofs < mem.len() as u64 {
        mem[ofs as usize] = v;
    }
}

pub fn write_16(mem: &mut Vec<u8>, ofs: u64, v: u16)
    ensures
        final(mem)@ == mem_write_16(old(mem)@, ofs as int, v),
        final(mem)@.len() == old(mem)@.len(),
{
    proof {
        lemma_halfword_bytes(v, 0, 0);
    }
    write_8(mem, ofs, (v & 0xff) as u8);
    if ofs < u64::MAX {
        write_8(mem, ofs + 1, (v >> 8u16) as u8);
    } else {
        assert(mem.len() <= u64::MAX);
    }
}

} // verus!
