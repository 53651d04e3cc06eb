//! Program status registers.
use vstd::prelude::*;

verus! {

/// The processor modes that the five mode bits of a status register can name.
#[derive(Debug, Clone, Copy, PartialEq, Eq, Structural)]
pub enum CpuMode {
    User,
    Fiq,
    Irq,
    Supervisor,
    Abort,
    Undefined,
    System,
}

/// The instruction set that the processor is decoding.
#[derive(Debug, Clone, Copy, PartialEq, Eq, Structural)]
pub enum CpuState {
    ARM,
    THUMB,
}

/// Whether `bits` is one of the seven defined mode encodings.
pub open spec fn valid_mode_bits(bits: u32) -> bool {
    bits == 0x10 || bits == 0x11 || bits == 0x12 || bits == 0x13 || bits == 0x17 || bits == 0x1b
        || bits == 0x1f
}

impl CpuMode {
    /// The encoding of the mode in bits 4..0 of a status register.
    pub open spec fn spec_bits(self) -> u32 {
        match self {
            CpuMode::User => 0x10,
            CpuMode::Fiq => 0x11,
            CpuMode::Irq => 0x12,
            CpuMode::Supervisor => 0x13,
            CpuMode::Abort => 0x17,
            CpuMode::Undefined => 0x1b,
            CpuMode::System => 0x1f,
        }
    }

    /// The mode that `bits` encodes, if any.
    pub open spec fn spec_from_bits(bits: u32) -> Option<CpuMode> {
        if bits == 0x10 {
            Some(CpuMode::User)
        } else if bits == 0x11 {
            Some(CpuMode::Fiq)
        } else if bits == 0x12 {
            Some(CpuMode::Irq)
        } else if bits == 0x13 {
            Some(CpuMode::Supervisor)
        } else if bits == 0x17 {
            Some(CpuMode::Abort)
        } else if bits == 0x1b {
            Some(CpuMode::Undefined)
        } else if bits == 0x1f {
            Some(CpuMode::System)
        } else {
            None
        }
    }

    /// Which of the six copies of R13, R14 and SPSR the mode uses. User and
    /// System share the first.
    pub open spec fn spec_bank(self) -> int {
        match self {
            CpuMode::User | CpuMode::System => 0,
            CpuMode::Fiq => 1,
            CpuMode::Irq => 2,
            CpuMode::Supervisor => 3,
            CpuMode::Abort => 4,
            CpuMode::Undefined => 5,
        }
    }

    pub fn bits(&self) -> (r: u32)
        ensures
            r == self.spec_bits(),
            valid_mode_bits(r),
    {
        match self {
            CpuMode::User => 0x10,
            CpuMode::Fiq => 0x11,
            CpuMode::Irq => 0x12,
            CpuMode::Supervisor => 0x13,
            CpuMode::Abort => 0x17,
            CpuMode::Undefined => 0x1b,
            CpuMode::System => 0x1f,
        }
    }

    pub fn from_bits(bits: u32) -> (r: Option<CpuMode>)
        ensures
            r == CpuMode::spec_from_bits(bits),
            r.is_some() <==> valid_mode_bits(bits),
            r matches Some(m) ==> m.spec_bits() == bits,
    {
        if bits == 0x10 {
            Some(CpuMode::User)
        } else if bits == 0x11 {
            Some(CpuMode::Fiq)
        } else if bits == 0x12 {
            Some(CpuMode::Irq)
        } else if bits == 0x13 {
            Some(CpuMode::Supervisor)
        } else if bits == 0x17 {
            Some(CpuMode::Abort)
        } else if bits == 0x1b {
            Some(CpuMode::Undefined)
        } else if bits == 0x1f {
            Some(CpuMode::System)
        } else {
            None
        }
    }

    pub fn bank(&self) -> (r: usize)
        ensures
            r == self.spec_bank(),
            r < 6,
    {
        match self {
            CpuMode::User | CpuMode::System => 0,
            CpuMode::Fiq => 1,
            CpuMode::Irq => 2,
            CpuMode::Supervisor => 3,
            CpuMode::Abort => 4,
            CpuMode::Undefined => 5,
        }
    }
}

/// A program status register, held field by field. The mode is a `CpuMode`,
/// so a register of this type never names an undefined mode.
#[derive(Debug, Clone, Copy, PartialEq, Eq, Structural)]
pub struct RegPSR {
    pub n: bool,
    pub z: bool,
    pub c: bool,
    pub v: bool,
    pub irq_disabled: bool,
    pub fiq_disabled: bool,
    pub state: CpuState,
    pub mode: CpuMode,
}

pub open spec fn flag_mask(set: bool, mask: u32) -> u32 {
    if set {
        mask
    } else {
        0
    }
}

/// Each field of a status register can be read back from the packed word.
proof fn lemma_psr_fields(n: u32, z: u32, c: u32, v: u32, i: u32, f: u32, t: u32, m: u32)
    by (bit_vector)
    requires
        n == 0 || n == 0x8000_0000,
        z == 0 || z == 0x4000_0000,
        c == 0 || c == 0x2000_0000,
        v == 0 || v == 0x1000_0000,
        i == 0 || i == 0x80,
        f == 0 || f == 0x40,
        t == 0 || t == 0x20,
        m <= 0x1f,
    ensures
        (n | z | c | v | i | f | t | m) & 0x8000_0000 == n,
        (n | z | c | v | i | f | t | m) & 0x4000_0000 == z,
        (n | z | c | v | i | f | t | m) & 0x2000_0000 == c,
        (n | z | c | v | i | f | t | m) & 0x1000_0000 == v,
        (n | z | c | v | i | f | t | m) & 0x80 == i,
        (n | z | c | v | i | f | t | m) & 0x40 == f,
        (n | z | c | v | i | f | t | m) & 0x20 == t,
        (n | z | c | v | i | f | t | m) & 0x1f == m,
        (n | z | c | v | i | f | t | m) & 0xf000_0000 == n | z | c | v,
{
}

impl RegPSR {
    /// The 32-bit word that the register reads as: N, Z, C and V in bits
    /// 31..28, the IRQ and FIQ masks in bits 7 and 6, the Thumb bit in bit 5
    /// and the mode in bits 4..0. Every other bit is zero.
    pub open spec fn spec_get(self) -> u32 {
        flag_mask(self.n, 0x8000_0000) | flag_mask(self.z, 0x4000_0000) | flag_mask(
            self.c,
            0x2000_0000,
        ) | flag_mask(self.v, 0x1000_0000) | flag_mask(self.irq_disabled, 0x80) | flag_mask(
            self.fiq_disabled,
            0x40,
        ) | flag_mask(self.state == CpuState::THUMB, 0x20) | self.mode.spec_bits()
    }

    /// The register that `raw` encodes, if its mode bits name a mode.
    pub open spec fn spec_from_bits(raw: u32) -> Option<RegPSR> {
        match CpuMode::spec_from_bits(raw & 0x1f) {
            Some(mode) => Some(
                RegPSR {
                    n: raw & 0x8000_0000 != 0,
                    z: raw & 0x4000_0000 != 0,
                    c: raw & 0x2000_0000 != 0,
                    v: raw & 0x1000_0000 != 0,
                    irq_disabled: raw & 0x80 != 0,
                    fiq_disabled: raw & 0x40 != 0,
                    state: if raw & 0x20 != 0 {
                        CpuState::THUMB
                    } else {
                        CpuState::ARM
                    },
                    mode,
                },
            ),
            None => None,
        }
    }

    /// The register with its four condition flags taken from bits 31..28 of
    /// `raw` and everything else kept.
    pub open spec fn spec_with_flags(self, raw: u32) -> RegPSR {
        RegPSR {
            n: raw & 0x8000_0000 != 0,
            z: raw & 0x4000_0000 != 0,
            c: raw & 0x2000_0000 != 0,
            v: raw & 0x1000_0000 != 0,
            ..self
        }
    }

    /// The state of the register after reset: Supervisor mode, ARM state,
    /// both interrupt masks set, flags clear.
    pub open spec fn spec_reset() -> RegPSR {
        RegPSR {
            n: false,
            z: false,
            c: false,
            v: false,
            irq_disabled: true,
            fiq_disabled: true,
            state: CpuState::ARM,
            mode: CpuMode::Supervisor,
        }
    }

    pub fn new() -> (r: RegPSR)
        ensures
            r == RegPSR::spec_reset(),
    {
        RegPSR {
            n: false,
            z: false,
            c: false,
            v: false,
            irq_disabled: true,
            fiq_disabled: true,
            state: CpuState::ARM,
            mode: CpuMode::Supervisor,
        }
    }

    /// Packs the register into its 32-bit word.
    pub fn get(&self) -> (r: u32)
        ensures
            r == self.spec_get(),
            valid_mode_bits(r & 0x1f),
            RegPSR::spec_from_bits(r) == Some(*self),
    {
        let n: u32 = if self.n { 0x8000_0000 } else { 0 };
        let z: u32 = if self.z { 0x4000_0000 } else { 0 };
        let c: u32 = if self.c { 0x2000_0000 } else { 0 };
        let v: u32 = if self.v { 0x1000_0000 } else { 0 };
        let i: u32 = if self.irq_disabled { 0x80 } else { 0 };
        let f: u32 = if self.fiq_disabled { 0x40 } else { 0 };
        let t: u32 = if self.state == CpuState::THUMB { 0x20 } else { 0 };
        let m: u32 = self.mode.bits();
        proof {
            lemma_psr_fields(n, z, c, v, i, f, t, m);
        }
        n | z | c | v | i | f | t | m
    }

    /// Unpacks a 32-bit word. Fails exactly when bits 4..0 name no mode.
    pub fn from_bits(raw: u32) -> (r: Option<RegPSR>)
        ensures
            r == RegPSR::spec_from_bits(raw),
            r.is_some() <==> valid_mode_bits(raw & 0x1f),
    {
        match CpuMode::from_bits(raw & 0x1f) {
            Some(mode) => Some(
                RegPSR {
                    n: raw & 0x8000_0000 != 0,
                    z: raw & 0x4000_0000 != 0,
                    c: raw & 0x2000_0000 != 0,
                    v: raw & 0x1000_0000 != 0,
                    irq_disabled: raw & 0x80 != 0,
                    fiq_disabled: raw & 0x40 != 0,
                    state: if raw & 0x20 != 0 {
                        CpuState::THUMB
                    } else {
                        CpuState::ARM
                    },
                    mode,
                },
            ),
            None => None,
        }
    }

    /// Replaces the four condition flags by bits 31..28 of `raw`.
    pub fn set_flag_bits(&mut self, raw: u32)
        ensures
            *final(self) == old(self).spec_with_flags(raw),
            final(self).spec_get() & 0x0fff_ffff == old(self).spec_get() & 0x0fff_ffff,
            final(self).spec_get() & 0xf000_0000 == raw & 0xf000_0000,
    {
        proof {
            lemma_flag_bits(*self, raw);
        }
        self.n = raw & 0x8000_0000 != 0;
        self.z = raw & 0x4000_0000 != 0;
        self.c = raw & 0x2000_0000 != 0;
        self.v = raw & 0x1000_0000 != 0;
    }
}

/// Four flag bits laid over the low byte of a word make up its bits 31..28
/// and leave the low byte as it is.
proof fn lemma_split_flags(n: u32, z: u32, c: u32, v: u32, rest: u32, raw: u32)
    by (bit_vector)
    requires
        n == raw & 0x8000_0000,
        z == raw & 0x4000_0000,
        c == raw & 0x2000_0000,
        v == raw & 0x1000_0000,
        rest <= 0xff,
    ensures
        (n | z | c | v | rest) & 0xf000_0000 == raw & 0xf000_0000,
        (n | z | c | v | rest) & 0x0fff_ffff == rest,
{
}

/// The bits of a packed status register below bit 28 are its masks, its
/// Thumb bit and its mode.
proof fn lemma_low_fields(n: u32, z: u32, c: u32, v: u32, i: u32, f: u32, t: u32, m: u32)
    by (bit_vector)
    requires
        n == 0 || n == 0x8000_0000,
        z == 0 || z == 0x4000_0000,
        c == 0 || c == 0x2000_0000,
        v == 0 || v == 0x1000_0000,
        i == 0 || i == 0x80,
        f == 0 || f == 0x40,
        t == 0 || t == 0x20,
        m <= 0x1f,
    ensures
        (n | z | c | v | i | f | t | m) & 0x0fff_ffff == i | f | t | m,
        (n | z | c | v | (i | f | t | m)) == (n | z | c | v | i | f | t | m),
        (i | f | t | m) <= 0xff,
{
}

/// A write of the flags changes bits 31..28 of the packed word, to those of
/// the written word, and no other bit.
proof fn lemma_flag_bits(psr: RegPSR, raw: u32)
    ensures
        psr.spec_with_flags(raw).spec_get() & 0x0fff_ffff == psr.spec_get() & 0x0fff_ffff,
        psr.spec_with_flags(raw).spec_get() & 0xf000_0000 == raw & 0xf000_0000,
{
    let i = flag_mask(psr.irq_disabled, 0x80);
    let f = flag_mask(psr.fiq_disabled, 0x40);
    let t = flag_mask(psr.state == CpuState::THUMB, 0x20);
    let m = psr.mode.spec_bits();
    let new = psr.spec_with_flags(raw);
    lemma_low_fields(
        flag_mask(psr.n, 0x8000_0000),
        flag_mask(psr.z, 0x4000_0000),
        flag_mask(psr.c, 0x2000_0000),
        flag_mask(psr.v, 0x1000_0000),
        i,
        f,
        t,
        m,
    );
    lemma_low_fields(
        flag_mask(new.n, 0x8000_0000),
        flag_mask(new.z, 0x4000_0000),
        flag_mask(new.c, 0x2000_0000),
        flag_mask(new.v, 0x1000_0000),
        i,
        f,
        t,
        m,
    );
    lemma_mask_is_flag(raw);
    lemma_split_flags(
        flag_mask(new.n, 0x8000_0000),
        flag_mask(new.z, 0x4000_0000),
        flag_mask(new.c, 0x2000_0000),
        flag_mask(new.v, 0x1000_0000),
        (i | f | t | m),
        raw,
    );
}

/// A word masked with one bit is zero or that bit.
proof fn lemma_mask_is_flag(raw: u32)
    by (bit_vector)
    ensures
        raw & 0x8000_0000 == 0 || raw & 0x8000_0000 == 0x8000_0000,
        raw & 0x4000_0000 == 0 || raw & 0x4000_0000 == 0x4000_0000,
        raw & 0x2000_0000 == 0 || raw & 0x2000_0000 == 0x2000_0000,
        raw & 0x1000_0000 == 0 || raw & 0x1000_0000 == 0x1000_0000,
{
}

/// The mode bits of every status register name one of the seven modes.
pub proof fn lemma_mode_bits(psr: RegPSR)
    ensures
        psr.spec_get() & 0x1f == psr.mode.spec_bits(),
        valid_mode_bits(psr.spec_get() & 0x1f),
        RegPSR::spec_from_bits(psr.spec_get()) == Some(psr),
{
    lemma_psr_fields(
        flag_mask(psr.n, 0x8000_0000),
        flag_mask(psr.z, 0x4000_0000),
        flag_mask(psr.c, 0x2000_0000),
        flag_mask(psr.v, 0x1000_0000),
        flag_mask(psr.irq_disabled, 0x80),
        flag_mask(psr.fiq_disabled, 0x40),
        flag_mask(psr.state == CpuState::THUMB, 0x20),
        psr.mode.spec_bits(),
    );
}

} // verus!
