//! The register file and the state that survives from one instruction to the
//! next.
use crate::arm7tdmi::alu::BarrelShifter;
use crate::arm7tdmi::arm::lut::{arm_lut_entry, spec_arm_insn_hash, ArmLut};
use crate::arm7tdmi::arm::{ArmCond, ArmInstruction};
use crate::arm7tdmi::exception::Exception;
use crate::arm7tdmi::psr::{lemma_mode_bits, valid_mode_bits};
use crate::bits::{bits, get_bits};
use crate::sysbus::{access_cycles, BusState, SysBus};
use crate::arm7tdmi::psr::{CpuMode, CpuState, RegPSR};
use vstd::array::spec_array_update;
use vstd::prelude::*;

verus! {

pub const REG_SP: usize = 13;

pub const REG_LR: usize = 14;

pub const REG_PC: usize = 15;

/// What can stop an instruction before it has any effect.
#[derive(Debug, Clone, Copy, PartialEq, Eq, Structural)]
pub enum CpuError {
    /// The instruction asks for something that the architecture leaves
    /// undefined, such as a shift amount taken from R15.
    IllegalInstruction,
}

pub type CpuResult<T> = Result<T, CpuError>;

/// What the core does with the program counter after a handler has run.
#[derive(Debug, Clone, Copy, PartialEq, Eq, Structural)]
pub enum CpuAction {
    /// Move on to the instruction that follows, this many bytes further.
    AdvancePC(u32),
    /// The handler wrote the program counter; the prefetched words are stale.
    PipelineFlushed,
}

/// `x + y`, held at `u64::MAX` where the sum would pass it.
pub open spec fn sat_add(x: u64, y: u64) -> u64 {
    if x + y > u64::MAX {
        u64::MAX
    } else {
        (x + y) as u64
    }
}

/// The program counter value that is in step with `state`: the low two bits
/// clear in ARM state, the lowest bit clear in Thumb state.
pub open spec fn aligned_pc(state: CpuState, v: u32) -> u32 {
    match state {
        CpuState::ARM => v & 0xffff_fffc,
        CpuState::THUMB => v & 0xffff_fffe,
    }
}

/// A masked program counter is a multiple of four or of two, and an aligned
/// one passes the mask unchanged.
pub proof fn lemma_alignment(v: u32)
    by (bit_vector)
    ensures
        (v & 0xffff_fffc) % 4 == 0,
        (v & 0xffff_fffe) % 2 == 0,
        v % 4 == 0 ==> v & 0xffff_fffc == v,
        v % 2 == 0 ==> v & 0xffff_fffe == v,
{
}

/// The processor state.
///
/// `pc` is the address of the instruction that executes next; while it
/// executes, R15 reads two instructions ahead of it. The general registers
/// are stored one physical register each, so a change of mode moves nothing:
/// R0..R7 are shared by all modes, R8..R12 exist once for FIQ mode and once
/// for the others, R13, R14 and the saved status register exist once per bank.
#[derive(Debug, Clone, Copy)]
pub struct Core {
    pub pc: u32,
    pub gpr: [u32; 8],
    pub gpr_high: [u32; 5],
    pub gpr_high_fiq: [u32; 5],
    pub gpr_banked_r13: [u32; 6],
    pub gpr_banked_r14: [u32; 6],
    pub cpsr: RegPSR,
    pub spsr_bank: [RegPSR; 6],
    pub bs: BarrelShifter,
    /// Cycles since power-on. Never decreases; holds at `u64::MAX`.
    pub cycles: u64,
    /// Cycles charged to the instruction in progress.
    pub step_cycles: u64,
    /// The two words fetched ahead: `prefetch[0]` is the word at `pc`.
    pub prefetch: [u32; 2],
    /// Set by every write to R15, and by every exception entry: the words in
    /// `prefetch` no longer belong to `pc`.
    pub flushed: bool,
}

impl Core {
    /// The invariant of the register file: the program counter is aligned
    /// for the instruction set in use.
    pub open spec fn wf(self) -> bool {
        match self.cpsr.state {
            CpuState::ARM => self.pc % 4 == 0,
            CpuState::THUMB => self.pc % 2 == 0,
        }
    }

    /// How far ahead of the executing instruction R15 reads.
    pub open spec fn spec_pc_ahead(self) -> u32 {
        match self.cpsr.state {
            CpuState::ARM => 8,
            CpuState::THUMB => 4,
        }
    }

    /// What register `r` reads as in mode `mode`.
    pub open spec fn reg_in(self, mode: CpuMode, r: int) -> u32 {
        if 0 <= r < 8 {
            self.gpr[r]
        } else if r < 13 {
            if mode == CpuMode::Fiq {
                self.gpr_high_fiq[r - 8]
            } else {
                self.gpr_high[r - 8]
            }
        } else if r == 13 {
            self.gpr_banked_r13[mode.spec_bank()]
        } else if r == 14 {
            self.gpr_banked_r14[mode.spec_bank()]
        } else {
            self.pc.wrapping_add(self.spec_pc_ahead())
        }
    }

    /// The state after a write of `v` to register `r` as seen from `mode`. A
    /// write to R15 aligns the value and marks the pipeline flushed.
    pub open spec fn with_reg_in(self, mode: CpuMode, r: int, v: u32) -> Core {
        if 0 <= r < 8 {
            Core { gpr: spec_array_update(self.gpr, r, v), ..self }
        } else if r < 13 {
            if mode == CpuMode::Fiq {
                Core { gpr_high_fiq: spec_array_update(self.gpr_high_fiq, r - 8, v), ..self }
            } else {
                Core { gpr_high: spec_array_update(self.gpr_high, r - 8, v), ..self }
            }
        } else if r == 13 {
            Core {
                gpr_banked_r13: spec_array_update(self.gpr_banked_r13, mode.spec_bank(), v),
                ..self
            }
        } else if r == 14 {
            Core {
                gpr_banked_r14: spec_array_update(self.gpr_banked_r14, mode.spec_bank(), v),
                ..self
            }
        } else {
            Core { pc: aligned_pc(self.cpsr.state, v), flushed: true, ..self }
        }
    }

    /// What register `r` reads as in the current mode.
    pub open spec fn reg(self, r: int) -> u32 {
        self.reg_in(self.cpsr.mode, r)
    }

    /// The state after a write of `v` to register `r` in the current mode.
    pub open spec fn with_reg(self, r: int, v: u32) -> Core {
        self.with_reg_in(self.cpsr.mode, r, v)
    }

    /// The saved status register of the current mode.
    pub open spec fn spec_spsr(self) -> RegPSR {
        self.spsr_bank[self.cpsr.mode.spec_bank()]
    }

    /// The state with `n` more cycles charged to the instruction in progress.
    pub open spec fn with_cycles(self, n: u64) -> Core {
        Core { step_cycles: sat_add(self.step_cycles, n), ..self }
    }

    /// The state after power-on: Supervisor mode, ARM state, interrupts
    /// masked, every register zero, the pipeline empty.
    pub open spec fn is_power_on(self) -> bool {
        &&& self.pc == 0
        &&& forall|i: int| 0 <= i < 8 ==> self.gpr[i] == 0
        &&& forall|i: int| 0 <= i < 5 ==> self.gpr_high[i] == 0 && self.gpr_high_fiq[i] == 0
        &&& forall|i: int|
            0 <= i < 6 ==> self.gpr_banked_r13[i] == 0 && self.gpr_banked_r14[i] == 0
                && self.spsr_bank[i] == RegPSR::spec_reset()
        &&& self.cpsr == RegPSR::spec_reset()
        &&& !self.bs.carry_out
        &&& self.cycles == 0
        &&& self.step_cycles == 0
        &&& self.prefetch[0] == 0 && self.prefetch[1] == 0
        &&& self.flushed
    }

    pub fn new() -> (core: Core)
        ensures
            core.is_power_on(),
            core.wf(),
    {
        proof {
            lemma_alignment(0);
        }
        Core {
            pc: 0,
            gpr: [0u32; 8],
            gpr_high: [0u32; 5],
            gpr_high_fiq: [0u32; 5],
            gpr_banked_r13: [0u32; 6],
            gpr_banked_r14: [0u32; 6],
            cpsr: RegPSR::new(),
            spsr_bank: [RegPSR::new(); 6],
            bs: BarrelShifter { carry_out: false },
            cycles: 0,
            step_cycles: 0,
            prefetch: [0u32; 2],
            flushed: true,
        }
    }

    /// Reads register `r` as the mode `mode` sees it.
    pub fn get_reg_in(&self, mode: CpuMode, r: usize) -> (v: u32)
        requires
            r < 16,
        ensures
            v == self.reg_in(mode, r as int),
    {
        if r < 8 {
            self.gpr[r]
        } else if r < 13 {
            if mode == CpuMode::Fiq {
                self.gpr_high_fiq[r - 8]
            } else {
                self.gpr_high[r - 8]
            }
        } else if r == 13 {
            self.gpr_banked_r13[mode.bank()]
        } else if r == 14 {
            self.gpr_banked_r14[mode.bank()]
        } else {
            let ahead: u32 = if self.cpsr.state == CpuState::ARM {
                8
            } else {
                4
            };
            self.pc.wrapping_add(ahead)
        }
    }

    /// Writes register `r` as the mode `mode` sees it.
    pub fn set_reg_in(&mut self, mode: CpuMode, r: usize, v: u32)
        requires
            r < 16,
            old(self).wf(),
        ensures
            *final(self) == old(self).with_reg_in(mode, r as int, v),
            final(self).wf(),
            final(self).cpsr == old(self).cpsr,
            final(self).cycles == old(self).cycles,
            r != 15 ==> final(self).pc == old(self).pc && final(self).flushed == old(self).flushed,
            r == 15 ==> final(self).flushed,
    {
        if r < 8 {
            self.gpr[r] = v;
            assert(self.gpr =~= spec_array_update(old(self).gpr, r as int, v));
        } else if r < 13 {
            if mode == CpuMode::Fiq {
                self.gpr_high_fiq[r - 8] = v;
                assert(self.gpr_high_fiq =~= spec_array_update(
                    old(self).gpr_high_fiq,
                    r - 8,
                    v,
                ));
            } else {
                self.gpr_high[r - 8] = v;
                assert(self.gpr_high =~= spec_array_update(old(self).gpr_high, r - 8, v));
            }
        } else if r == 13 {
            self.gpr_banked_r13[mode.bank()] = v;
            assert(self.gpr_banked_r13 =~= spec_array_update(
                old(self).gpr_banked_r13,
                mode.spec_bank(),
                v,
            ));
        } else if r == 14 {
            self.gpr_banked_r14[mode.bank()] = v;
            assert(self.gpr_banked_r14 =~= spec_array_update(
                old(self).gpr_banked_r14,
                mode.spec_bank(),
                v,
            ));
        } else {
            let target: u32 = if self.cpsr.state == CpuState::ARM {
                v & 0xffff_fffc
            } else {
                v & 0xffff_fffe
            };
            proof {
                lemma_alignment(v);
            }
            self.pc = target;
            self.flushed = true;
        }
    }

    /// Reads register `r` in the current mode. R15 reads two instructions
    /// ahead of the one that executes.
    pub fn get_reg(&self, r: usize) -> (v: u32)
        requires
            r < 16,
        ensures
            v == self.reg(r as int),
    {
        self.get_reg_in(self.cpsr.mode, r)
    }

    /// Writes register `r` in the current mode.
    pub fn set_reg(&mut self, r: usize, v: u32)
        requires
            r < 16,
            old(self).wf(),
        ensures
            *final(self) == old(self).with_reg(r as int, v),
            final(self).wf(),
            final(self).cpsr == old(self).cpsr,
            final(self).cycles == old(self).cycles,
            r != 15 ==> final(self).pc == old(self).pc && final(self).flushed == old(self).flushed,
            r == 15 ==> final(self).flushed,
    {
        let mode = self.cpsr.mode;
        self.set_reg_in(mode, r, v);
    }

    /// The saved status register of the current mode.
    pub fn spsr(&self) -> (r: RegPSR)
        ensures
            r == self.spec_spsr(),
    {
        self.spsr_bank[self.cpsr.mode.bank()]
    }

    /// Charges `n` cycles to the instruction in progress.
    pub fn add_cycles(&mut self, n: u64)
        ensures
            *final(self) == old(self).with_cycles(n),
            final(self).step_cycles >= old(self).step_cycles,
            final(self).step_cycles >= n,
    {
        self.step_cycles = self.step_cycles.saturating_add(n);
    }
}

impl Core {
    /// Whether the flags meet the condition `cond`.
    pub open spec fn spec_check_arm_cond(self, cond: ArmCond) -> bool {
        match cond {
            ArmCond::EQ => self.cpsr.z,
            ArmCond::NE => !self.cpsr.z,
            ArmCond::HS => self.cpsr.c,
            ArmCond::LO => !self.cpsr.c,
            ArmCond::MI => self.cpsr.n,
            ArmCond::PL => !self.cpsr.n,
            ArmCond::VS => self.cpsr.v,
            ArmCond::VC => !self.cpsr.v,
            ArmCond::HI => self.cpsr.c && !self.cpsr.z,
            ArmCond::LS => !self.cpsr.c || self.cpsr.z,
            ArmCond::GE => self.cpsr.n == self.cpsr.v,
            ArmCond::LT => self.cpsr.n != self.cpsr.v,
            ArmCond::GT => !self.cpsr.z && self.cpsr.n == self.cpsr.v,
            ArmCond::LE => self.cpsr.z || self.cpsr.n != self.cpsr.v,
            ArmCond::AL => true,
        }
    }

    pub fn check_arm_cond(&self, cond: ArmCond) -> (r: bool)
        ensures
            r == self.spec_check_arm_cond(cond),
    {
        match cond {
            ArmCond::EQ => self.cpsr.z,
            ArmCond::NE => !self.cpsr.z,
            ArmCond::HS => self.cpsr.c,
            ArmCond::LO => !self.cpsr.c,
            ArmCond::MI => self.cpsr.n,
            ArmCond::PL => !self.cpsr.n,
            ArmCond::VS => self.cpsr.v,
            ArmCond::VC => !self.cpsr.v,
            ArmCond::HI => self.cpsr.c && !self.cpsr.z,
            ArmCond::LS => !self.cpsr.c || self.cpsr.z,
            ArmCond::GE => self.cpsr.n == self.cpsr.v,
            ArmCond::LT => self.cpsr.n != self.cpsr.v,
            ArmCond::GT => !self.cpsr.z && self.cpsr.n == self.cpsr.v,
            ArmCond::LE => self.cpsr.z || self.cpsr.n != self.cpsr.v,
            ArmCond::AL => true,
        }
    }
}

impl Core {
    /// The state with an empty pipeline filled: the two words at `pc` are
    /// fetched.
    pub open spec fn spec_refilled(self, bus: BusState) -> Core {
        if self.flushed {
            Core {
                prefetch: spec_array_update(
                    spec_array_update(self.prefetch, 0, bus.read_32(self.pc)),
                    1,
                    bus.read_32(self.pc.wrapping_add(4)),
                ),
                flushed: false,
                ..self
            }
        } else {
            self
        }
    }

    /// The state after the program counter has moved on by one instruction:
    /// the word fetched ahead becomes the next instruction, and the word
    /// after it is fetched.
    pub open spec fn spec_advanced(self, bus: BusState) -> Core {
        Core {
            pc: self.pc.wrapping_add(4),
            prefetch: spec_array_update(
                spec_array_update(self.prefetch, 0, self.prefetch[1]),
                1,
                bus.read_32(self.pc.wrapping_add(8)),
            ),
            ..self
        }
    }

    /// The instruction that the word `raw` at the program counter is
    /// executed as: its format is the one that the dispatch table holds for
    /// the digest of the word.
    pub open spec fn spec_fetched(self, raw: u32) -> ArmInstruction {
        ArmInstruction { fmt: arm_lut_entry(spec_arm_insn_hash(raw) as u32).fmt, raw, pc: self.pc }
    }

    /// Processor and bus after the instruction word `raw` has been
    /// executed, or skipped because its condition fails. A condition field
    /// of `0b1111` takes the undefined instruction exception.
    pub open spec fn spec_executed(self, bus: BusState, raw: u32) -> (Core, BusState) {
        match ArmCond::spec_from_code(bits(raw, 28, 32)) {
            None => (self.spec_exception(Exception::UndefinedInstruction), bus),
            Some(cond) => if self.spec_check_arm_cond(cond) {
                self.spec_exec_arm(bus, self.spec_fetched(raw))
            } else {
                (self, bus)
            },
        }
    }

    /// The state at the end of a step: a written program counter is paid
    /// for with two fetches at the new address, any other moves on; and the
    /// cycles of the step are added to the total.
    pub open spec fn spec_completed(self, bus: BusState) -> Core {
        let moved = if self.flushed {
            self.with_cycles((2 * access_cycles(self.pc)) as u64)
        } else {
            self.spec_advanced(bus)
        };
        Core { cycles: sat_add(moved.cycles, moved.step_cycles), ..moved }
    }

    /// Processor and bus after one step.
    ///
    /// In ARM state the step fills the pipeline if it is empty, charges the
    /// fetch, and executes the word at the program counter. This core
    /// executes the ARM instruction set only: a step in Thumb state takes
    /// the undefined instruction exception, which leads back to ARM state.
    pub open spec fn spec_step(self, bus: BusState) -> (Core, BusState) {
        let fresh = Core { step_cycles: 0, ..self };
        match fresh.cpsr.state {
            CpuState::THUMB => (
                fresh.with_cycles(1).spec_exception(Exception::UndefinedInstruction).spec_completed(
                    bus,
                ),
                bus,
            ),
            CpuState::ARM => {
                let filled = fresh.spec_refilled(bus);
                let (done, after) = filled.with_cycles(access_cycles(filled.pc)).spec_executed(
                    bus,
                    filled.prefetch[0],
                );
                (done.spec_completed(after), after)
            },
        }
    }

    fn refill(&mut self, sb: &SysBus)
        ensures
            *final(self) == old(self).spec_refilled(sb@),
            !final(self).flushed,
    {
        if self.flushed {
            let first = sb.read_32(self.pc);
            let second = sb.read_32(self.pc.wrapping_add(4));
            self.prefetch[0] = first;
            self.prefetch[1] = second;
            self.flushed = false;
            assert(self.prefetch =~= spec_array_update(
                spec_array_update(old(self).prefetch, 0, first),
                1,
                second,
            ));
        }
    }

    fn complete(&mut self, sb: &SysBus)
        requires
            old(self).wf(),
        ensures
            *final(self) == old(self).spec_completed(sb@),
            final(self).wf(),
            final(self).cycles == sat_add(old(self).cycles, final(self).step_cycles),
            final(self).step_cycles >= old(self).step_cycles,
            final(self).cpsr == old(self).cpsr,
    {
        if self.flushed {
            let cost = sb.get_cycles(self.pc);
            self.add_cycles(2 * cost);
        } else {
            let next = self.prefetch[1];
            let ahead = sb.read_32(self.pc.wrapping_add(8));
            self.pc = self.pc.wrapping_add(4);
            self.prefetch[0] = next;
            self.prefetch[1] = ahead;
            assert(self.prefetch =~= spec_array_update(
                spec_array_update(old(self).prefetch, 0, next),
                1,
                ahead,
            ));
        }
        self.cycles = self.cycles.saturating_add(self.step_cycles);
    }

    fn execute(&mut self, sb: &mut SysBus, lut: &ArmLut, raw: u32)
        requires
            old(self).wf(),
            old(self).cpsr.state == CpuState::ARM,
            lut.wf(),
        ensures
            (*final(self), final(sb)@) == old(self).spec_executed(old(sb)@, raw),
            final(self).wf(),
            final(self).cycles == old(self).cycles,
            final(self).step_cycles >= old(self).step_cycles,
            final(sb).ioregs.io.follows(old(sb).ioregs.io),
    {
        match ArmCond::from_code(get_bits(raw, 28, 32)) {
            None => {
                self.exception(Exception::UndefinedInstruction);
            },
            Some(cond) => {
                if self.check_arm_cond(cond) {
                    let info = lut.lookup(raw);
                    let insn = ArmInstruction::new(raw, self.pc, info.fmt);
                    let _ = self.dispatch(sb, info.handler_fn, &insn);
                }
            },
        }
    }

    /// Executes one instruction. Returns the cycles that it took.
    pub fn step(&mut self, sb: &mut SysBus, lut: &ArmLut) -> (cost: u64)
        requires
            old(self).wf(),
            lut.wf(),
        ensures
            (*final(self), final(sb)@) == old(self).spec_step(old(sb)@),
            final(self).wf(),
            cost >= 1,
            cost == final(self).step_cycles,
            final(self).cycles == sat_add(old(self).cycles, cost),
            final(self).cycles >= old(self).cycles,
            valid_mode_bits(final(self).cpsr.spec_get() & 0x1f),
            final(sb).ioregs.io.follows(old(sb).ioregs.io),
    {
        self.step_cycles = 0;
        if self.cpsr.state == CpuState::THUMB {
            self.add_cycles(1);
            self.exception(Exception::UndefinedInstruction);
        } else {
            self.refill(sb);
            let cost = sb.get_cycles(self.pc);
            self.add_cycles(cost);
            let raw = self.prefetch[0];
            self.execute(sb, lut, raw);
        }
        self.complete(sb);
        proof {
            lemma_mode_bits(self.cpsr);
        }
        self.step_cycles
    }
}

} // verus!
