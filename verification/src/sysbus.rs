//! The system bus: every memory and the I/O area behind one 32-bit address
//! space, read and written a byte, a halfword or a word at a time.
use crate::bits::{ror, rotate_right};
use crate::ioregs::{is_plain_register, lemma_write_then_read, IoRegs, IO_BASE};
use crate::memory::{
    halfword_of, high_byte, lemma_halfword_bytes, low_byte, mem_read_8, mem_write_8, read_8, write_8,
};
use vstd::prelude::*;

verus! {

pub const BIOS_SIZE: usize = 0x4000;

pub const EWRAM_ADDR: u32 = 0x0200_0000;

pub const EWRAM_SIZE: usize = 0x4_0000;

pub const IWRAM_ADDR: u32 = 0x0300_0000;

pub const IWRAM_SIZE: usize = 0x8000;

pub const PALRAM_ADDR: u32 = 0x0500_0000;

pub const PALRAM_SIZE: usize = 0x400;

pub const VRAM_SIZE: usize = 0x1_8000;

pub const OAM_ADDR: u32 = 0x0700_0000;

pub const OAM_SIZE: usize = 0x400;

pub const GAMEPAK_ADDR: u32 = 0x0800_0000;

pub const SRAM_ADDR: u32 = 0x0e00_0000;

pub const SRAM_SIZE: usize = 0x1_0000;

/// Everything that the bus reaches.
pub struct SysBus {
    pub bios: Vec<u8>,
    pub onboard_work_ram: Vec<u8>,
    pub internal_work_ram: Vec<u8>,
    pub ioregs: IoRegs,
    pub palette_ram: Vec<u8>,
    pub vram: Vec<u8>,
    pub oam: Vec<u8>,
    pub gamepak: Vec<u8>,
    pub sram: Vec<u8>,
}

/// The contents of everything that the bus reaches.
pub ghost struct BusState {
    pub bios: Seq<u8>,
    pub onboard_work_ram: Seq<u8>,
    pub internal_work_ram: Seq<u8>,
    pub ioregs: IoRegs,
    pub palette_ram: Seq<u8>,
    pub vram: Seq<u8>,
    pub oam: Seq<u8>,
    pub gamepak: Seq<u8>,
    pub sram: Seq<u8>,
}

impl View for SysBus {
    type V = BusState;

    open spec fn view(&self) -> BusState {
        BusState {
            bios: self.bios@,
            onboard_work_ram: self.onboard_work_ram@,
            internal_work_ram: self.internal_work_ram@,
            ioregs: self.ioregs,
            palette_ram: self.palette_ram@,
            vram: self.vram@,
            oam: self.oam@,
            gamepak: self.gamepak@,
            sram: self.sram@,
        }
    }
}

/// Whether `addr` lies in the I/O area.
pub open spec fn is_io(addr: u32) -> bool {
    0x0400_0000 <= addr < 0x0400_0400
}

/// The halfword with its two bytes exchanged: what a halfword read gives
/// at an odd address.
pub open spec fn swap_bytes(v: u16) -> u16 {
    (v >> 8u16) | (v << 8u16)
}

/// The word made of two halfwords, the first one low.
pub open spec fn word_of(lo: u16, hi: u16) -> u32 {
    (lo as u32) | ((hi as u32) << 16u32)
}

/// The low half of a word.
pub open spec fn low_half(v: u32) -> u16 {
    (v & 0xffff) as u16
}

/// The high half of a word.
pub open spec fn high_half(v: u32) -> u16 {
    (v >> 16u32) as u16
}

/// A word is made of its two halves, and two halfwords are the halves of
/// the word that they make.
pub proof fn lemma_word_halves(v: u32, lo: u16, hi: u16)
    by (bit_vector)
    ensures
        v & 0xffff < 0x1_0000,
        v >> 16u32 < 0x1_0000,
        ((v & 0xffff) as u16 as u32) | (((v >> 16u32) as u16 as u32) << 16u32) == v,
        (((lo as u32) | ((hi as u32) << 16u32)) & 0xffff) as u16 == lo,
        (((lo as u32) | ((hi as u32) << 16u32)) >> 16u32) as u16 == hi,
{
}

/// The cycles that one access to `addr` takes: three in the external work
/// RAM, five on the cartridge, one everywhere else.
pub open spec fn access_cycles(addr: u32) -> u64 {
    if 0x0200_0000 <= addr < 0x0204_0000 {
        3
    } else if 0x0800_0000 <= addr < 0x0a00_0000 || 0x0e00_0000 <= addr < 0x0e01_0000 {
        5
    } else {
        1
    }
}

impl BusState {
    /// The byte at `addr` in the memories. An address that belongs to no
    /// memory, or lies behind the end of the cartridge, reads as zero.
    pub open spec fn mem_byte(self, addr: u32) -> u8 {
        if addr < 0x4000 {
            mem_read_8(self.bios, addr as int)
        } else if 0x0200_0000 <= addr < 0x0204_0000 {
            mem_read_8(self.onboard_work_ram, addr - 0x0200_0000)
        } else if 0x0300_0000 <= addr < 0x0300_8000 {
            mem_read_8(self.internal_work_ram, addr - 0x0300_0000)
        } else if 0x0500_0000 <= addr < 0x0500_0400 {
            mem_read_8(self.palette_ram, addr - 0x0500_0000)
        } else if 0x0600_0000 <= addr < 0x0601_8000 {
            mem_read_8(self.vram, addr - 0x0600_0000)
        } else if 0x0700_0000 <= addr < 0x0700_0400 {
            mem_read_8(self.oam, addr - 0x0700_0000)
        } else if 0x0800_0000 <= addr < 0x0a00_0000 {
            mem_read_8(self.gamepak, addr - 0x0800_0000)
        } else if 0x0e00_0000 <= addr < 0x0e01_0000 {
            mem_read_8(self.sram, addr - 0x0e00_0000)
        } else {
            0
        }
    }

    /// The state after the byte `v` is stored at `addr` in the memories. The
    /// BIOS and the cartridge are read-only, and a store to an address that
    /// belongs to no memory is dropped.
    pub open spec fn with_mem_byte(self, addr: u32, v: u8) -> BusState {
        if 0x0200_0000 <= addr < 0x0204_0000 {
            BusState {
                onboard_work_ram: mem_write_8(self.onboard_work_ram, addr - 0x0200_0000, v),
                ..self
            }
        } else if 0x0300_0000 <= addr < 0x0300_8000 {
            BusState {
                internal_work_ram: mem_write_8(self.internal_work_ram, addr - 0x0300_0000, v),
                ..self
            }
        } else if 0x0500_0000 <= addr < 0x0500_0400 {
            BusState { palette_ram: mem_write_8(self.palette_ram, addr - 0x0500_0000, v), ..self }
        } else if 0x0600_0000 <= addr < 0x0601_8000 {
            BusState { vram: mem_write_8(self.vram, addr - 0x0600_0000, v), ..self }
        } else if 0x0700_0000 <= addr < 0x0700_0400 {
            BusState { oam: mem_write_8(self.oam, addr - 0x0700_0000, v), ..self }
        } else if 0x0e00_0000 <= addr < 0x0e01_0000 {
            BusState { sram: mem_write_8(self.sram, addr - 0x0e00_0000, v), ..self }
        } else {
            self
        }
    }

    /// The halfword at the even address `addr`: an I/O register, or two
    /// bytes of memory, the first one low.
    pub open spec fn aligned_16(self, addr: u32) -> u16 {
        if is_io(addr) {
            self.ioregs.spec_read_16((addr - 0x0400_0000) as u32)
        } else {
            halfword_of(self.mem_byte(addr), self.mem_byte((addr + 1) as u32))
        }
    }

    /// The state after the halfword `v` is stored at the even address
    /// `addr`.
    pub open spec fn with_aligned_16(self, addr: u32, v: u16) -> BusState {
        if is_io(addr) {
            BusState { ioregs: self.ioregs.spec_write_16((addr - 0x0400_0000) as u32, v), ..self }
        } else {
            self.with_mem_byte(addr, low_byte(v)).with_mem_byte((addr + 1) as u32, high_byte(v))
        }
    }

    /// What a byte read at `addr` gives. In the I/O area it is one half of
    /// the register that holds the address.
    pub open spec fn read_8(self, addr: u32) -> u8 {
        if is_io(addr) {
            if addr % 2 == 1 {
                high_byte(self.aligned_16((addr - 1) as u32))
            } else {
                low_byte(self.aligned_16(addr))
            }
        } else {
            self.mem_byte(addr)
        }
    }

    /// What a halfword read at `addr` gives: the halfword at the even
    /// address below, its bytes exchanged if `addr` is odd.
    pub open spec fn read_16(self, addr: u32) -> u16 {
        if addr % 2 == 1 {
            swap_bytes(self.aligned_16((addr - 1) as u32))
        } else {
            self.aligned_16(addr)
        }
    }

    /// The word at the address `addr`, which is a multiple of four.
    pub open spec fn aligned_32(self, addr: u32) -> u32 {
        word_of(self.aligned_16(addr), self.aligned_16((addr + 2) as u32))
    }

    /// What a word read at `addr` gives: the word at the multiple of four
    /// below, rotated right by eight bits for each byte that `addr` lies
    /// above it.
    pub open spec fn read_32(self, addr: u32) -> u32 {
        rotate_right(self.aligned_32((addr - addr % 4) as u32), (8 * (addr % 4)) as u32)
    }

    /// The state after a byte write. In the I/O area the other half of the
    /// register keeps its value.
    pub open spec fn write_8(self, addr: u32, v: u8) -> BusState {
        if is_io(addr) {
            if addr % 2 == 1 {
                self.with_aligned_16(
                    (addr - 1) as u32,
                    halfword_of(low_byte(self.aligned_16((addr - 1) as u32)), v),
                )
            } else {
                self.with_aligned_16(addr, halfword_of(v, high_byte(self.aligned_16(addr))))
            }
        } else {
            self.with_mem_byte(addr, v)
        }
    }

    /// The state after a halfword write: the halfword goes to the even
    /// address at or below `addr`.
    pub open spec fn write_16(self, addr: u32, v: u16) -> BusState {
        self.with_aligned_16((addr - addr % 2) as u32, v)
    }

    /// The state after a word write: the word goes to the multiple of four
    /// at or below `addr`, low half first.
    pub open spec fn write_32(self, addr: u32, v: u32) -> BusState {
        self.with_aligned_16((addr - addr % 4) as u32, low_half(v)).with_aligned_16(
            (addr - addr % 4 + 2) as u32,
            high_half(v),
        )
    }
}

impl SysBus {
    /// Every RAM has its size and holds zeros.
    pub open spec fn rams_are_zero(self) -> bool {
        &&& self.onboard_work_ram@ == Seq::new(0x4_0000, |i: int| 0u8)
        &&& self.internal_work_ram@ == Seq::new(0x8000, |i: int| 0u8)
        &&& self.palette_ram@ == Seq::new(0x400, |i: int| 0u8)
        &&& self.vram@ == Seq::new(0x1_8000, |i: int| 0u8)
        &&& self.oam@ == Seq::new(0x400, |i: int| 0u8)
        &&& self.sram@ == Seq::new(0x1_0000, |i: int| 0u8)
    }

    /// A bus with the given BIOS and cartridge, every RAM zeroed.
    pub fn new(bios_rom: Vec<u8>, gamepak: Vec<u8>, ioregs: IoRegs) -> (r: SysBus)
        ensures
            r.bios == bios_rom,
            r.gamepak == gamepak,
            r.ioregs == ioregs,
            r.rams_are_zero(),
    {
        let r = SysBus {
            bios: bios_rom,
            onboard_work_ram: vec![0u8; 0x4_0000],
            internal_work_ram: vec![0u8; 0x8000],
            ioregs: ioregs,
            palette_ram: vec![0u8; 0x400],
            vram: vec![0u8; 0x1_8000],
            oam: vec![0u8; 0x400],
            gamepak: gamepak,
            sram: vec![0u8; 0x1_0000],
        };
        assert(r.onboard_work_ram@ =~= Seq::new(0x4_0000, |i: int| 0u8));
        assert(r.internal_work_ram@ =~= Seq::new(0x8000, |i: int| 0u8));
        assert(r.palette_ram@ =~= Seq::new(0x400, |i: int| 0u8));
        assert(r.vram@ =~= Seq::new(0x1_8000, |i: int| 0u8));
        assert(r.oam@ =~= Seq::new(0x400, |i: int| 0u8));
        assert(r.sram@ =~= Seq::new(0x1_0000, |i: int| 0u8));
        r
    }

    /// The cycles that one access to `addr` takes.
    pub fn get_cycles(&self, addr: u32) -> (r: u64)
        ensures
            r == access_cycles(addr),
            1 <= r <= 5,
    {
        if 0x0200_0000 <= addr && addr < 0x0204_0000 {
            3
        } else if (0x0800_0000 <= addr && addr < 0x0a00_0000) || (0x0e00_0000 <= addr && addr
            < 0x0e01_0000) {
            5
        } else {
            1
        }
    }

    fn mem_byte(&self, addr: u32) -> (r: u8)
        ensures
            r == self@.mem_byte(addr),
    {
        if addr < 0x4000 {
            read_8(&self.bios, addr as u64)
        } else if 0x0200_0000 <= addr && addr < 0x0204_0000 {
            read_8(&self.onboard_work_ram, (addr - 0x0200_0000) as u64)
        } else if 0x0300_0000 <= addr && addr < 0x0300_8000 {
            read_8(&self.internal_work_ram, (addr - 0x0300_0000) as u64)
        } else if 0x0500_0000 <= addr && addr < 0x0500_0400 {
            read_8(&self.palette_ram, (addr - 0x0500_0000) as u64)
        } else if 0x0600_0000 <= addr && addr < 0x0601_8000 {
            read_8(&self.vram, (addr - 0x0600_0000) as u64)
        } else if 0x0700_0000 <= addr && addr < 0x0700_0400 {
            read_8(&self.oam, (addr - 0x0700_0000) as u64)
        } else if 0x0800_0000 <= addr && addr < 0x0a00_0000 {
            read_8(&self.gamepak, (addr - 0x0800_0000) as u64)
        } else if 0x0e00_0000 <= addr && addr < 0x0e01_0000 {
            read_8(&self.sram, (addr - 0x0e00_0000) as u64)
        } else {
            0
        }
    }

    fn set_mem_byte(&mut self, addr: u32, v: u8)
        ensures
            final(self)@ == old(self)@.with_mem_byte(addr, v),
            final(self).ioregs == old(self).ioregs,
    {
        if 0x0200_0000 <= addr && addr < 0x0204_0000 {
            write_8(&mut self.onboard_work_ram, (addr - 0x0200_0000) as u64, v);
        } else if 0x0300_0000 <= addr && addr < 0x0300_8000 {
            write_8(&mut self.internal_work_ram, (addr - 0x0300_0000) as u64, v);
        } else if 0x0500_0000 <= addr && addr < 0x0500_0400 {
            write_8(&mut self.palette_ram, (addr - 0x0500_0000) as u64, v);
        } else if 0x0600_0000 <= addr && addr < 0x0601_8000 {
            write_8(&mut self.vram, (addr - 0x0600_0000) as u64, v);
        } else if 0x0700_0000 <= addr && addr < 0x0700_0400 {
            write_8(&mut self.oam, (addr - 0x0700_0000) as u64, v);
        } else if 0x0e00_0000 <= addr && addr < 0x0e01_0000 {
            write_8(&mut self.sram, (addr - 0x0e00_0000) as u64, v);
        }
    }

    fn aligned_16(&self, addr: u32) -> (r: u16)
        requires
            addr % 2 == 0,
        ensures
            r == self@.aligned_16(addr),
    {
        if IO_BASE <= addr && addr < 0x0400_0400 {
            self.ioregs.read_16(addr - IO_BASE)
        } else {
            let lo = self.mem_byte(addr);
            let hi = self.mem_byte(addr + 1);
            (lo as u16) | ((hi as u16) << 8u16)
        }
    }

    fn set_aligned_16(&mut self, addr: u32, v: u16)
        requires
            addr % 2 == 0,
        ensures
            final(self)@ == old(self)@.with_aligned_16(addr, v),
            final(self).ioregs.io.follows(old(self).ioregs.io),
    {
        if IO_BASE <= addr && addr < 0x0400_0400 {
            self.ioregs.write_16(addr - IO_BASE, v);
        } else {
            proof {
                lemma_halfword_bytes(v, 0, 0);
            }
            self.set_mem_byte(addr, (v & 0xff) as u8);
            self.set_mem_byte(addr + 1, (v >> 8u16) as u8);
        }
    }

    pub fn read_8(&self, addr: u32) -> (r: u8)
        ensures
            r == self@.read_8(addr),
    {
        if IO_BASE <= addr && addr < 0x0400_0400 {
            let h = self.aligned_16(addr - addr % 2);
            proof {
                lemma_halfword_bytes(h, 0, 0);
            }
            if addr % 2 == 1 {
                (h >> 8u16) as u8
            } else {
                (h & 0xff) as u8
            }
        } else {
            self.mem_byte(addr)
        }
    }

    pub fn read_16(&self, addr: u32) -> (r: u16)
        ensures
            r == self@.read_16(addr),
    {
        let h = self.aligned_16(addr - addr % 2);
        if addr % 2 == 1 {
            (h >> 8u16) | (h << 8u16)
        } else {
            h
        }
    }

    pub fn read_32(&self, addr: u32) -> (r: u32)
        ensures
            r == self@.read_32(addr),
    {
        let base = addr - addr % 4;
        let lo = self.aligned_16(base);
        let hi = self.aligned_16(base + 2);
        ror((lo as u32) | ((hi as u32) << 16u32), 8 * (addr % 4))
    }

    pub fn write_8(&mut self, addr: u32, value: u8)
        ensures
            final(self)@ == old(self)@.write_8(addr, value),
            final(self).ioregs.io.follows(old(self).ioregs.io),
    {
        if IO_BASE <= addr && addr < 0x0400_0400 {
            let base = addr - addr % 2;
            let h = self.aligned_16(base);
            proof {
                lemma_halfword_bytes(h, 0, 0);
            }
            if addr % 2 == 1 {
                let lo = (h & 0xff) as u8;
                self.set_aligned_16(base, (lo as u16) | ((value as u16) << 8u16));
            } else {
                let hi = (h >> 8u16) as u8;
                self.set_aligned_16(base, (value as u16) | ((hi as u16) << 8u16));
            }
        } else {
            self.set_mem_byte(addr, value);
        }
    }

    pub fn write_16(&mut self, addr: u32, value: u16)
        ensures
            final(self)@ == old(self)@.write_16(addr, value),
            final(self).ioregs.io.follows(old(self).ioregs.io),
    {
        self.set_aligned_16(addr - addr % 2, value);
    }

    pub fn write_32(&mut self, addr: u32, value: u32)
        ensures
            final(self)@ == old(self)@.write_32(addr, value),
            final(self).ioregs.io.follows(old(self).ioregs.io),
    {
        let base = addr - addr % 4;
        proof {
            lemma_word_halves(value, 0, 0);
        }
        self.set_aligned_16(base, (value & 0xffff) as u16);
        self.set_aligned_16(base + 2, (value >> 16u32) as u16);
    }
}

/// A halfword written over the bus to a plain I/O register is the halfword
/// that a read of the register gives afterwards.
pub proof fn lemma_io_write_then_read(bus: BusState, addr: u32, value: u16)
    requires
        is_io(addr),
        is_plain_register((addr - 0x0400_0000) as u32),
    ensures
        bus.write_16(addr, value).read_16(addr) == value,
{
    lemma_write_then_read(bus.ioregs, (addr - 0x0400_0000) as u32, value);
}

} // verus!
