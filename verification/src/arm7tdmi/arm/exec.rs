//! The executors of the ARM instruction formats.
//!
//! An executor is called for an instruction whose condition has passed. It
//! changes the processor and the bus as the instruction asks, charges the
//! cycles that the instruction takes beyond its fetch, and says whether the
//! program counter moves on or has been written.
use crate::arm7tdmi::alu::{alu_result, BarrelShifter, BarrelShifterValue};
use crate::arm7tdmi::arm::lut::{handler_of, ArmInstructionHandler};
use crate::arm7tdmi::arm::ArmHalfwordTransferType;
use crate::arm7tdmi::psr::{lemma_mode_bits, valid_mode_bits};
use crate::sysbus::{access_cycles, BusState, SysBus};
use crate::arm7tdmi::arm::ArmInstruction;
use crate::arm7tdmi::cpu::{aligned_pc, lemma_alignment, Core, CpuAction};
use crate::arm7tdmi::exception::Exception;
use crate::arm7tdmi::psr::{CpuMode, CpuState, RegPSR};
use crate::bits::{
    bit, bits, get_bit, i32_of, lemma_field_bounds, ror, rotate_right, to_i32, to_u32, u32_of,
};
use crate::sysbus::{lemma_word_halves, low_half};
use vstd::array::spec_array_update;
use vstd::prelude::*;

verus! {

/// The product of a long multiplication: of the operands as they are, or
/// read as signed numbers.
pub open spec fn long_product(rm: u32, rs: u32, signed: bool) -> int {
    if signed {
        i32_of(rm) * i32_of(rs)
    } else {
        rm * rs
    }
}

/// The 64 bits that a long multiplication leaves: product plus accumulator,
/// modulo 2^64.
pub open spec fn long_result(rm: u32, rs: u32, acc: u64, signed: bool) -> u64 {
    ((long_product(rm, rs, signed) + acc) % 0x1_0000_0000_0000_0000) as u64
}

/// Multiplies two words into 64 bits and adds `acc`.
pub fn multiply_long(rm: u32, rs: u32, acc: u64, signed: bool) -> (r: u64)
    ensures
        r == long_result(rm, rs, acc, signed),
{
    if signed {
        let a: i64 = to_i32(rm) as i64;
        let b: i64 = to_i32(rs) as i64;
        assert(-0x4000_0000_0000_0000 <= a * b <= 0x4000_0000_0000_0000) by (nonlinear_arith)
            requires
                -0x8000_0000 <= a < 0x8000_0000,
                -0x8000_0000 <= b < 0x8000_0000,
        ;
        let p: i64 = a * b;
        let pu: u64 = if p >= 0 {
            p as u64
        } else {
            ((p + 0x7fff_ffff_ffff_ffff + 1) as u64) + 0x8000_0000_0000_0000
        };
        pu.wrapping_add(acc)
    } else {
        let a: u64 = rm as u64;
        let b: u64 = rs as u64;
        assert(0 <= a * b <= 0xffff_fffe_0000_0001) by (nonlinear_arith)
            requires
                0 <= a <= 0xffff_ffff,
                0 <= b <= 0xffff_ffff,
        ;
        (a * b).wrapping_add(acc)
    }
}

impl Core {
    /// What the executor reports: whether the program counter was written.
    pub open spec fn spec_action(self) -> CpuAction {
        if self.flushed {
            CpuAction::PipelineFlushed
        } else {
            CpuAction::AdvancePC(4)
        }
    }

    /// The state after a jump to `target` in the instruction set `state`.
    pub open spec fn spec_branch_to(self, state: CpuState, target: u32) -> Core {
        Core {
            cpsr: RegPSR { state, ..self.cpsr },
            pc: aligned_pc(state, target),
            flushed: true,
            ..self
        }
    }

    /// BX: jumps to the address in Rn; bit 0 of the address selects Thumb
    /// state.
    pub open spec fn spec_bx(self, insn: ArmInstruction) -> Core {
        let target = self.reg(insn.spec_rn() as int);
        self.spec_branch_to(
            if target & 1 != 0 {
                CpuState::THUMB
            } else {
                CpuState::ARM
            },
            target,
        )
    }

    /// B, BL: jumps by the offset of the instruction, counted from R15; BL
    /// first leaves the address of the next instruction, R15 less four, in
    /// R14.
    pub open spec fn spec_b_bl(self, insn: ArmInstruction) -> Core {
        let linked = if bit(insn.raw, 24) {
            self.with_reg(14, self.reg(15).wrapping_sub(4))
        } else {
            self
        };
        linked.with_reg(15, self.reg(15).wrapping_add(u32_of(insn.spec_branch_offset() as i32)))
    }

    /// MRS: Rd receives the status register, saved or current.
    pub open spec fn spec_mrs(self, insn: ArmInstruction) -> Core {
        self.with_reg(
            insn.spec_rd() as int,
            if bit(insn.raw, 22) {
                self.spec_spsr().spec_get()
            } else {
                self.cpsr.spec_get()
            },
        )
    }

    /// The state after the word `value` is written to a status register:
    /// to the saved one if `to_spsr` holds, else to the current one.
    ///
    /// A word whose mode bits name no mode is refused: the undefined
    /// instruction exception is taken. In User mode a write to the current
    /// status register changes the condition flags only.
    pub open spec fn spec_write_psr(self, to_spsr: bool, value: u32) -> Core {
        if !to_spsr && self.cpsr.mode == CpuMode::User {
            Core { cpsr: self.cpsr.spec_with_flags(value), ..self }
        } else {
            match RegPSR::spec_from_bits(value) {
                Some(psr) => if to_spsr {
                    Core {
                        spsr_bank: spec_array_update(
                            self.spsr_bank,
                            self.cpsr.mode.spec_bank(),
                            psr,
                        ),
                        ..self
                    }
                } else {
                    Core { cpsr: psr, ..self }
                },
                None => self.spec_exception(Exception::UndefinedInstruction),
            }
        }
    }

    /// MSR with a register operand: the status register receives Rm.
    pub open spec fn spec_msr_reg(self, insn: ArmInstruction) -> Core {
        self.spec_write_psr(bit(insn.raw, 22), self.reg(insn.spec_rm() as int))
    }

    /// The operand of an MSR that writes the flags: a rotated immediate
    /// where bit 25 is set, else Rm.
    pub open spec fn spec_msr_flags_operand(self, insn: ArmInstruction) -> u32 {
        if bit(insn.raw, 25) {
            rotate_right(insn.raw & 0xff, (2 * bits(insn.raw, 8, 12)) as u32)
        } else {
            self.reg(insn.spec_rm() as int)
        }
    }

    /// MSR to the flags: bits 31..28 of the operand replace the condition
    /// flags of the status register, and nothing else changes.
    pub open spec fn spec_msr_flags(self, insn: ArmInstruction) -> Core {
        let value = self.spec_msr_flags_operand(insn);
        if bit(insn.raw, 22) {
            Core {
                spsr_bank: spec_array_update(
                    self.spsr_bank,
                    self.cpsr.mode.spec_bank(),
                    self.spec_spsr().spec_with_flags(value),
                ),
                ..self
            }
        } else {
            Core { cpsr: self.cpsr.spec_with_flags(value), ..self }
        }
    }

    /// MUL, MLA: Rd receives the low word of Rm times Rs, plus Rn if the
    /// instruction accumulates. With the S bit, N and Z follow the result.
    pub open spec fn spec_mul_mla(self, insn: ArmInstruction) -> Core {
        let product = self.reg(insn.spec_rm() as int).wrapping_mul(self.reg(insn.spec_rs() as int));
        let result = if bit(insn.raw, 21) {
            product.wrapping_add(self.reg(insn.spec_rn() as int))
        } else {
            product
        };
        let written = self.with_reg(insn.spec_rd() as int, result);
        let flagged = if bit(insn.raw, 20) {
            Core {
                cpsr: RegPSR { n: result >= 0x8000_0000, z: result == 0, ..written.cpsr },
                ..written
            }
        } else {
            written
        };
        flagged.with_cycles(
            if bit(insn.raw, 21) {
                2
            } else {
                1
            },
        )
    }

    /// The accumulator of a long multiplication: RdHi above RdLo if the
    /// instruction accumulates, else zero.
    pub open spec fn spec_mull_acc(self, insn: ArmInstruction) -> u64 {
        if bit(insn.raw, 21) {
            (self.reg(insn.spec_rd_hi() as int) * 0x1_0000_0000 + self.reg(
                insn.spec_rd_lo() as int,
            )) as u64
        } else {
            0
        }
    }

    /// UMULL, UMLAL, SMULL, SMLAL: RdHi and RdLo receive the 64-bit product
    /// of Rm and Rs, signed if bit 22 is set, plus their old contents if the
    /// instruction accumulates. With the S bit, N and Z follow the result.
    pub open spec fn spec_mull_mlal(self, insn: ArmInstruction) -> Core {
        let result = long_result(
            self.reg(insn.spec_rm() as int),
            self.reg(insn.spec_rs() as int),
            self.spec_mull_acc(insn),
            bit(insn.raw, 22),
        );
        let written = self.with_reg(
            insn.spec_rd_lo() as int,
            (result % 0x1_0000_0000) as u32,
        ).with_reg(insn.spec_rd_hi() as int, (result / 0x1_0000_0000) as u32);
        let flagged = if bit(insn.raw, 20) {
            Core {
                cpsr: RegPSR {
                    n: result >= 0x8000_0000_0000_0000,
                    z: result == 0,
                    ..written.cpsr
                },
                ..written
            }
        } else {
            written
        };
        flagged.with_cycles(
            if bit(insn.raw, 21) {
                3
            } else {
                2
            },
        )
    }

    pub fn action(&self) -> (r: CpuAction)
        ensures
            r == self.spec_action(),
    {
        if self.flushed {
            CpuAction::PipelineFlushed
        } else {
            CpuAction::AdvancePC(4)
        }
    }

    /// Jumps to `target` in the instruction set `state`.
    pub fn branch_to(&mut self, state: CpuState, target: u32)
        ensures
            *final(self) == old(self).spec_branch_to(state, target),
            final(self).wf(),
            final(self).flushed,
    {
        proof {
            lemma_alignment(target);
        }
        self.cpsr.state = state;
        self.pc = if state == CpuState::ARM {
            target & 0xffff_fffc
        } else {
            target & 0xffff_fffe
        };
        self.flushed = true;
    }

    /// Writes `value` to the saved or the current status register.
    pub fn write_psr(&mut self, to_spsr: bool, value: u32)
        requires
            old(self).wf(),
            old(self).cpsr.state == CpuState::ARM,
        ensures
            *final(self) == old(self).spec_write_psr(to_spsr, value),
            final(self).wf(),
            final(self).cycles == old(self).cycles,
            final(self).step_cycles == old(self).step_cycles,
    {
        if !to_spsr && self.cpsr.mode == CpuMode::User {
            self.cpsr.set_flag_bits(value);
        } else {
            match RegPSR::from_bits(value) {
                Some(psr) => {
                    if to_spsr {
                        let bank = self.cpsr.mode.bank();
                        self.spsr_bank[bank] = psr;
                        assert(self.spsr_bank =~= spec_array_update(
                            old(self).spsr_bank,
                            bank as int,
                            psr,
                        ));
                    } else {
                        self.cpsr = psr;
                    }
                },
                None => {
                    self.exception(Exception::UndefinedInstruction);
                },
            }
        }
    }

    /// Executes a branch and exchange.
    pub fn exec_arm_bx(&mut self, insn: &ArmInstruction) -> (action: CpuAction)
        requires
            old(self).wf(),
        ensures
            *final(self) == old(self).spec_bx(*insn),
            action == final(self).spec_action(),
            final(self).wf(),
            final(self).cycles == old(self).cycles,
            final(self).step_cycles >= old(self).step_cycles,
            valid_mode_bits(final(self).cpsr.spec_get() & 0x1f),
    {
        let target = self.get_reg(insn.rn());
        let state = if target & 1 != 0 {
            CpuState::THUMB
        } else {
            CpuState::ARM
        };
        self.branch_to(state, target);
        proof {
            lemma_mode_bits(self.cpsr);
        }
        self.action()
    }

    /// Executes a branch, with or without link.
    pub fn exec_arm_b_bl(&mut self, insn: &ArmInstruction) -> (action: CpuAction)
        requires
            old(self).wf(),
        ensures
            *final(self) == old(self).spec_b_bl(*insn),
            action == final(self).spec_action(),
            final(self).wf(),
            final(self).cycles == old(self).cycles,
            final(self).step_cycles >= old(self).step_cycles,
            valid_mode_bits(final(self).cpsr.spec_get() & 0x1f),
    {
        let pc = self.get_reg(15);
        if insn.link_flag() {
            self.set_reg(14, pc.wrapping_sub(4));
        }
        self.set_reg(15, pc.wrapping_add(to_u32(insn.branch_offset())));
        proof {
            lemma_mode_bits(self.cpsr);
        }
        self.action()
    }

    /// Executes a software interrupt: takes the exception.
    pub fn exec_arm_swi(&mut self, insn: &ArmInstruction) -> (action: CpuAction)
        ensures
            *final(self) == old(self).spec_exception(Exception::SoftwareInterrupt),
            action == CpuAction::PipelineFlushed,
            final(self).wf(),
            final(self).cycles == old(self).cycles,
            final(self).step_cycles >= old(self).step_cycles,
            valid_mode_bits(final(self).cpsr.spec_get() & 0x1f),
    {
        self.exception(Exception::SoftwareInterrupt);
        CpuAction::PipelineFlushed
    }

    /// Executes an undefined instruction: takes the exception.
    pub fn exec_arm_undefined(&mut self, insn: &ArmInstruction) -> (action: CpuAction)
        ensures
            *final(self) == old(self).spec_exception(Exception::UndefinedInstruction),
            action == CpuAction::PipelineFlushed,
            final(self).wf(),
            final(self).cycles == old(self).cycles,
            final(self).step_cycles >= old(self).step_cycles,
            valid_mode_bits(final(self).cpsr.spec_get() & 0x1f),
    {
        self.exception(Exception::UndefinedInstruction);
        CpuAction::PipelineFlushed
    }

    /// Executes a move from a status register.
    pub fn exec_arm_mrs(&mut self, insn: &ArmInstruction) -> (action: CpuAction)
        requires
            old(self).wf(),
        ensures
            *final(self) == old(self).spec_mrs(*insn),
            action == final(self).spec_action(),
            final(self).wf(),
            final(self).cycles == old(self).cycles,
            final(self).step_cycles >= old(self).step_cycles,
            valid_mode_bits(final(self).cpsr.spec_get() & 0x1f),
    {
        let value = if insn.spsr_flag() {
            self.spsr().get()
        } else {
            self.cpsr.get()
        };
        self.set_reg(insn.rd(), value);
        proof {
            lemma_mode_bits(self.cpsr);
        }
        self.action()
    }

    /// Executes a move of a register to a status register.
    pub fn exec_arm_msr_reg(&mut self, insn: &ArmInstruction) -> (action: CpuAction)
        requires
            old(self).wf(),
            old(self).cpsr.state == CpuState::ARM,
        ensures
            *final(self) == old(self).spec_msr_reg(*insn),
            action == final(self).spec_action(),
            final(self).wf(),
            final(self).cycles == old(self).cycles,
            final(self).step_cycles >= old(self).step_cycles,
            valid_mode_bits(final(self).cpsr.spec_get() & 0x1f),
    {
        let value = self.get_reg(insn.rm());
        self.write_psr(insn.spsr_flag(), value);
        proof {
            lemma_mode_bits(self.cpsr);
        }
        self.action()
    }

    /// Executes a move to the flags of a status register.
    pub fn exec_arm_msr_flags(&mut self, insn: &ArmInstruction) -> (action: CpuAction)
        requires
            old(self).wf(),
        ensures
            *final(self) == old(self).spec_msr_flags(*insn),
            action == final(self).spec_action(),
            final(self).wf(),
            final(self).cycles == old(self).cycles,
            final(self).step_cycles >= old(self).step_cycles,
            valid_mode_bits(final(self).cpsr.spec_get() & 0x1f),
    {
        let value = match insn.operand2() {
            BarrelShifterValue::RotatedImmediate(immediate, rotate) => ror(immediate, rotate),
            _ => self.get_reg(insn.rm()),
        };
        if insn.spsr_flag() {
            let bank = self.cpsr.mode.bank();
            let mut psr = self.spsr_bank[bank];
            psr.set_flag_bits(value);
            self.spsr_bank[bank] = psr;
            assert(self.spsr_bank =~= spec_array_update(old(self).spsr_bank, bank as int, psr));
        } else {
            self.cpsr.set_flag_bits(value);
        }
        proof {
            lemma_mode_bits(self.cpsr);
        }
        self.action()
    }

    /// Executes a multiply, with or without accumulate.
    pub fn exec_arm_mul_mla(&mut self, insn: &ArmInstruction) -> (action: CpuAction)
        requires
            old(self).wf(),
        ensures
            *final(self) == old(self).spec_mul_mla(*insn),
            action == final(self).spec_action(),
            final(self).wf(),
            final(self).cycles == old(self).cycles,
            final(self).step_cycles >= old(self).step_cycles,
            valid_mode_bits(final(self).cpsr.spec_get() & 0x1f),
    {
        let product = self.get_reg(insn.rm()).wrapping_mul(self.get_reg(insn.rs()));
        let accumulate = insn.accumulate_flag();
        let result = if accumulate {
            product.wrapping_add(self.get_reg(insn.rn()))
        } else {
            product
        };
        self.set_reg(insn.rd(), result);
        if insn.set_cond_flag() {
            self.cpsr.n = result >= 0x8000_0000;
            self.cpsr.z = result == 0;
        }
        self.add_cycles(
            if accumulate {
                2
            } else {
                1
            },
        );
        proof {
            lemma_mode_bits(self.cpsr);
        }
        self.action()
    }

    /// Executes a long multiply, with or without accumulate.
    pub fn exec_arm_mull_mlal(&mut self, insn: &ArmInstruction) -> (action: CpuAction)
        requires
            old(self).wf(),
        ensures
            *final(self) == old(self).spec_mull_mlal(*insn),
            action == final(self).spec_action(),
            final(self).wf(),
            final(self).cycles == old(self).cycles,
            final(self).step_cycles >= old(self).step_cycles,
            valid_mode_bits(final(self).cpsr.spec_get() & 0x1f),
    {
        let accumulate = insn.accumulate_flag();
        let acc: u64 = if accumulate {
            (self.get_reg(insn.rd_hi()) as u64) * 0x1_0000_0000 + (self.get_reg(
                insn.rd_lo(),
            ) as u64)
        } else {
            0
        };
        let result = multiply_long(
            self.get_reg(insn.rm()),
            self.get_reg(insn.rs()),
            acc,
            insn.u_flag(),
        );
        self.set_reg(insn.rd_lo(), (result % 0x1_0000_0000) as u32);
        self.set_reg(insn.rd_hi(), (result / 0x1_0000_0000) as u32);
        if insn.set_cond_flag() {
            self.cpsr.n = result >= 0x8000_0000_0000_0000;
            self.cpsr.z = result == 0;
        }
        self.add_cycles(
            if accumulate {
                3
            } else {
                2
            },
        );
        proof {
            lemma_mode_bits(self.cpsr);
        }
        self.action()
    }
}

impl Core {
    /// The second operand of a data-processing instruction and the carry
    /// that leaves the shifter, or `None` where the instruction takes a
    /// shift amount from R15.
    ///
    /// An immediate that is not rotated hands the carry flag through; a
    /// rotated one gives its bit 31 as the carry.
    pub open spec fn spec_dp_operand2(self, insn: ArmInstruction) -> Option<(u32, bool)> {
        match insn.spec_operand2() {
            BarrelShifterValue::RotatedImmediate(immediate, rotate) => Some(
                (
                    rotate_right(immediate, rotate),
                    if rotate == 0 {
                        self.cpsr.c
                    } else {
                        rotate_right(immediate, rotate) >= 0x8000_0000
                    },
                ),
            ),
            BarrelShifterValue::ShiftedRegister(shift) => self.spec_register_shift(shift),
            BarrelShifterValue::ImmediateValue(value) => Some((u32_of(value), self.cpsr.c)),
        }
    }

    /// Whether the instruction shifts its second operand by a register.
    pub open spec fn spec_shifts_by_register(insn: ArmInstruction) -> bool {
        !bit(insn.raw, 25) && bit(insn.raw, 4)
    }

    /// The first operand of a data-processing instruction: Rn, where R15
    /// reads one word further ahead if the shift amount comes from a
    /// register.
    pub open spec fn spec_dp_operand1(self, insn: ArmInstruction) -> u32 {
        if insn.spec_rn() == 15 && Self::spec_shifts_by_register(insn) {
            self.reg(15).wrapping_add(4)
        } else {
            self.reg(insn.spec_rn() as int)
        }
    }

    /// Whether a data-processing instruction sets the flags: its S bit is
    /// set, or its operation only compares.
    pub open spec fn spec_dp_sets_flags(insn: ArmInstruction) -> bool {
        bit(insn.raw, 20) || insn.spec_opcode().spec_is_setting_flags()
    }

    /// The state after the result of a data-processing instruction has been
    /// written. An operation that only compares writes nothing. Where Rd is
    /// R15 the processor jumps to the result, and if the S bit is set the
    /// saved status register of the current mode first becomes the current
    /// one.
    pub open spec fn spec_dp_write(self, insn: ArmInstruction, result: u32) -> Core {
        if insn.spec_opcode().spec_is_setting_flags() {
            self
        } else if insn.spec_rd() == 15 {
            if bit(insn.raw, 20) {
                (Core { cpsr: self.spec_spsr(), ..self }).spec_branch_to(
                    self.spec_spsr().state,
                    result,
                )
            } else {
                self.spec_branch_to(self.cpsr.state, result)
            }
        } else {
            self.with_reg(insn.spec_rd() as int, result)
        }
    }

    /// The state after the ALU has worked on the operands of a
    /// data-processing instruction and the result has been written. If the
    /// instruction sets the flags, N and Z follow the result, C is the carry
    /// of an arithmetic operation or else that of the shifter, and V the
    /// overflow of an arithmetic operation.
    pub open spec fn spec_dp_compute(self, insn: ArmInstruction, op1: u32, op2: u32) -> Core {
        let opcode = insn.spec_opcode();
        let result = alu_result(opcode, op1, op2, self.cpsr.c, self.bs.carry_out, self.cpsr.v).0;
        let flagged = if Self::spec_dp_sets_flags(insn) {
            Core { cpsr: self.spec_alu_flags(opcode, op1, op2), ..self }
        } else {
            self
        };
        flagged.spec_dp_write(insn, result)
    }

    /// Data processing.
    ///
    /// The second operand goes through the shifter, whose carry is kept, and
    /// both operands through the ALU; the result is written as
    /// `spec_dp_write` says. A shift by a register takes one cycle more, and
    /// a shift amount from R15 takes the undefined instruction exception.
    pub open spec fn spec_data_processing(self, insn: ArmInstruction) -> Core {
        match self.spec_dp_operand2(insn) {
            None => self.spec_exception(Exception::UndefinedInstruction),
            Some((op2, carry)) => (Core {
                bs: BarrelShifter { carry_out: carry },
                ..self
            }).spec_dp_compute(insn, self.spec_dp_operand1(insn), op2).with_cycles(
                if Self::spec_shifts_by_register(insn) {
                    1
                } else {
                    0
                },
            ),
        }
    }

    /// Evaluates the second operand of a data-processing instruction and
    /// leaves the carry of the shifter in the shifter.
    fn dp_operand2(&mut self, insn: &ArmInstruction) -> (r: Option<u32>)
        requires
            old(self).wf(),
        ensures
            match r {
                Some(op2) => old(self).spec_dp_operand2(*insn) == Some(
                    (op2, final(self).bs.carry_out),
                ),
                None => old(self).spec_dp_operand2(*insn) is None && final(self).bs == old(self).bs,
            },
            *final(self) == (Core { bs: final(self).bs, ..*old(self) }),
    {
        match insn.operand2() {
            BarrelShifterValue::RotatedImmediate(immediate, rotate) => {
                let value = ror(immediate, rotate);
                self.bs.carry_out = if rotate == 0 {
                    self.cpsr.c
                } else {
                    value >= 0x8000_0000
                };
                Some(value)
            },
            BarrelShifterValue::ShiftedRegister(shift) => {
                match self.register_shift(shift) {
                    Ok(value) => Some(to_u32(value)),
                    Err(_) => None,
                }
            },
            BarrelShifterValue::ImmediateValue(value) => {
                self.bs.carry_out = self.cpsr.c;
                Some(to_u32(value))
            },
        }
    }

    /// Writes the result of a data-processing instruction.
    fn dp_write(&mut self, insn: &ArmInstruction, result: u32)
        requires
            old(self).wf(),
        ensures
            *final(self) == old(self).spec_dp_write(*insn, result),
            final(self).wf(),
            final(self).cycles == old(self).cycles,
            final(self).step_cycles == old(self).step_cycles,
            insn.spec_rd() == 15 && bit(insn.raw, 20) && !insn.spec_opcode().spec_is_setting_flags()
                ==> final(self).cpsr == old(self).spec_spsr(),
    {
        if insn.opcode().is_setting_flags() {
        } else {
            let rd = insn.rd();
            if rd == 15 {
                if insn.set_cond_flag() {
                    self.cpsr = self.spsr();
                }
                let state = self.cpsr.state;
                self.branch_to(state, result);
            } else {
                self.set_reg(rd, result);
            }
        }
    }

    /// Runs the ALU on the operands of a data-processing instruction and
    /// writes the result.
    fn dp_compute(&mut self, insn: &ArmInstruction, op1: u32, op2: u32)
        requires
            old(self).wf(),
        ensures
            *final(self) == old(self).spec_dp_compute(*insn, op1, op2),
            final(self).wf(),
            final(self).cycles == old(self).cycles,
            final(self).step_cycles == old(self).step_cycles,
            insn.spec_rd() == 15 && bit(insn.raw, 20) && !insn.spec_opcode().spec_is_setting_flags()
                ==> final(self).cpsr == old(self).spec_spsr(),
    {
        let opcode = insn.opcode();
        let set_flags = insn.set_cond_flag() || opcode.is_setting_flags();
        let result = if set_flags {
            match self.alu_flags(opcode, to_i32(op1), to_i32(op2)) {
                Some(value) => to_u32(value),
                None => 0,
            }
        } else {
            to_u32(self.alu(opcode, to_i32(op1), to_i32(op2)))
        };
        self.dp_write(insn, result);
    }

    /// Executes a data-processing instruction.
    pub fn exec_arm_data_processing(&mut self, insn: &ArmInstruction) -> (action: CpuAction)
        requires
            old(self).wf(),
        ensures
            *final(self) == old(self).spec_data_processing(*insn),
            action == final(self).spec_action(),
            final(self).wf(),
            final(self).cycles == old(self).cycles,
            final(self).step_cycles >= old(self).step_cycles,
            insn.spec_rd() == 15 && bit(insn.raw, 20) && !insn.spec_opcode().spec_is_setting_flags()
                && old(self).spec_dp_operand2(*insn) is Some ==> final(self).cpsr
                == old(self).spec_spsr(),
            valid_mode_bits(final(self).cpsr.spec_get() & 0x1f),
    {
        let by_register = !get_bit(insn.raw, 25) && get_bit(insn.raw, 4);
        let rn = insn.rn();
        let op1 = if rn == 15 && by_register {
            self.get_reg(15).wrapping_add(4)
        } else {
            self.get_reg(rn)
        };
        match self.dp_operand2(insn) {
            Some(op2) => {
                self.dp_compute(insn, op1, op2);
                self.add_cycles(
                    if by_register {
                        1
                    } else {
                        0
                    },
                );
            },
            None => {
                self.exception(Exception::UndefinedInstruction);
            },
        }
        proof {
            lemma_mode_bits(self.cpsr);
        }
        self.action()
    }
}

/// The word with the value of a signed byte.
pub open spec fn sign_extend_8(b: u8) -> u32 {
    if b < 0x80 {
        b as u32
    } else {
        (b + 0xffff_ff00) as u32
    }
}

/// The word with the value of a signed halfword.
pub open spec fn sign_extend_16(h: u16) -> u32 {
    if h < 0x8000 {
        h as u32
    } else {
        (h + 0xffff_0000) as u32
    }
}

/// The low byte of a word.
pub open spec fn low_byte_of(v: u32) -> u8 {
    (v & 0xff) as u8
}

impl Core {
    /// The address that a single transfer uses: the base register with the
    /// offset applied if the instruction is pre-indexed, else the base
    /// register alone.
    pub open spec fn spec_transfer_address(self, insn: ArmInstruction, offset: u32) -> u32 {
        if bit(insn.raw, 24) {
            self.reg(insn.spec_rn() as int).wrapping_add(offset)
        } else {
            self.reg(insn.spec_rn() as int)
        }
    }

    /// The state after the base register has been updated: it receives base
    /// plus offset if the instruction is post-indexed or asks for
    /// write-back.
    pub open spec fn spec_written_back(self, insn: ArmInstruction, offset: u32) -> Core {
        if !bit(insn.raw, 24) || bit(insn.raw, 21) {
            self.with_reg(
                insn.spec_rn() as int,
                self.reg(insn.spec_rn() as int).wrapping_add(offset),
            )
        } else {
            self
        }
    }

    /// The state after `data` has been loaded into register `rd`. A load
    /// into R15 is a jump, and bit 0 of the loaded word selects Thumb state.
    pub open spec fn spec_loaded(self, rd: int, data: u32) -> Core {
        if rd == 15 {
            self.spec_branch_to(
                if data & 1 != 0 {
                    CpuState::THUMB
                } else {
                    CpuState::ARM
                },
                data,
            )
        } else {
            self.with_reg(rd, data)
        }
    }

    /// What a store of register `rd` writes: R15 is stored three words
    /// ahead of the instruction.
    pub open spec fn spec_store_value(self, rd: int) -> u32 {
        if rd == 15 {
            self.reg(15).wrapping_add(4)
        } else {
            self.reg(rd)
        }
    }

    /// Processor and bus after a transfer of a word or a byte at `addr`.
    /// A loaded byte is zero-extended. A load takes one cycle more than the
    /// access.
    pub open spec fn spec_single_transfer(self, bus: BusState, insn: ArmInstruction, offset: u32)
        -> (Core, BusState) {
        let addr = self.spec_transfer_address(insn, offset);
        let based = self.spec_written_back(insn, offset);
        let rd = insn.spec_rd() as int;
        if bit(insn.raw, 20) {
            (
                based.spec_loaded(
                    rd,
                    if bit(insn.raw, 22) {
                        bus.read_8(addr) as u32
                    } else {
                        bus.read_32(addr)
                    },
                ).with_cycles((access_cycles(addr) + 1) as u64),
                bus,
            )
        } else {
            (
                based.with_cycles(access_cycles(addr)),
                if bit(insn.raw, 22) {
                    bus.write_8(addr, low_byte_of(self.spec_store_value(rd)))
                } else {
                    bus.write_32(addr, self.spec_store_value(rd))
                },
            )
        }
    }

    /// LDR, STR, LDRB, STRB. A register offset whose shift amount would come
    /// from R15 takes the undefined instruction exception.
    pub open spec fn spec_ldr_str(self, bus: BusState, insn: ArmInstruction) -> (Core, BusState) {
        match self.spec_barrel_shifted_value(insn.spec_ldr_str_offset()) {
            None => (self.spec_exception(Exception::UndefinedInstruction), bus),
            Some(offset) => self.spec_single_transfer(bus, insn, offset),
        }
    }

    /// Processor and bus after a transfer of a halfword or a signed byte at
    /// `addr`. A store writes the low halfword of Rd.
    pub open spec fn spec_halfword_transfer(
        self,
        bus: BusState,
        insn: ArmInstruction,
        offset: u32,
        transfer: ArmHalfwordTransferType,
    ) -> (Core, BusState) {
        let addr = self.spec_transfer_address(insn, offset);
        let based = self.spec_written_back(insn, offset);
        let rd = insn.spec_rd() as int;
        if bit(insn.raw, 20) {
            (
                based.spec_loaded(
                    rd,
                    match transfer {
                        ArmHalfwordTransferType::UnsignedHalfwords => bus.read_16(addr) as u32,
                        ArmHalfwordTransferType::SignedByte => sign_extend_8(bus.read_8(addr)),
                        ArmHalfwordTransferType::SignedHalfwords => sign_extend_16(
                            bus.read_16(addr),
                        ),
                    },
                ).with_cycles((access_cycles(addr) + 1) as u64),
                bus,
            )
        } else {
            (
                based.with_cycles(access_cycles(addr)),
                bus.write_16(addr, low_half(self.spec_store_value(rd))),
            )
        }
    }

    /// LDRH, STRH, LDRSB, LDRSH. An instruction that is in neither halfword
    /// format, or whose bits 6..5 select no transfer, takes the undefined
    /// instruction exception.
    pub open spec fn spec_ldr_str_hs(self, bus: BusState, insn: ArmInstruction) -> (
        Core,
        BusState,
    ) {
        match (
            insn.spec_ldr_str_hs_offset(),
            ArmHalfwordTransferType::spec_from_code((insn.raw & 0x60) >> 5u32),
        ) {
            (Some(operand), Some(transfer)) => match self.spec_barrel_shifted_value(operand) {
                Some(offset) => self.spec_halfword_transfer(bus, insn, offset, transfer),
                None => (self.spec_exception(Exception::UndefinedInstruction), bus),
            },
            _ => (self.spec_exception(Exception::UndefinedInstruction), bus),
        }
    }

    /// SWP, SWPB: Rd receives the word or byte at the address in Rn, and Rm
    /// is stored there, with nothing in between.
    pub open spec fn spec_swp(self, bus: BusState, insn: ArmInstruction) -> (Core, BusState) {
        let addr = self.reg(insn.spec_rn() as int);
        let value = self.reg(insn.spec_rm() as int);
        (
            self.with_reg(
                insn.spec_rd() as int,
                if bit(insn.raw, 22) {
                    bus.read_8(addr) as u32
                } else {
                    bus.read_32(addr)
                },
            ).with_cycles((2 * access_cycles(addr) + 1) as u64),
            if bit(insn.raw, 22) {
                bus.write_8(addr, low_byte_of(value))
            } else {
                bus.write_32(addr, value)
            },
        )
    }

    /// Evaluates an offset operand and leaves the shifter as it was.
    fn transfer_offset(&mut self, operand: BarrelShifterValue) -> (r: Option<u32>)
        requires
            old(self).wf(),
            operand.valid(),
        ensures
            r == old(self).spec_barrel_shifted_value(operand),
            *final(self) == *old(self),
    {
        let saved = self.bs;
        let r = match self.get_barrel_shifted_value(operand) {
            Ok(v) => Some(to_u32(v)),
            Err(_) => None,
        };
        self.bs = saved;
        r
    }

    /// Updates the base register of a single transfer.
    fn write_back(&mut self, insn: &ArmInstruction, offset: u32)
        requires
            old(self).wf(),
        ensures
            *final(self) == old(self).spec_written_back(*insn, offset),
            final(self).wf(),
            final(self).cycles == old(self).cycles,
            final(self).step_cycles == old(self).step_cycles,
    {
        if !insn.pre_index_flag() || insn.write_back_flag() {
            let rn = insn.rn();
            let base = self.get_reg(rn);
            self.set_reg(rn, base.wrapping_add(offset));
        }
    }

    /// Loads `data` into register `rd`.
    fn load_into(&mut self, rd: usize, data: u32)
        requires
            old(self).wf(),
            rd < 16,
        ensures
            *final(self) == old(self).spec_loaded(rd as int, data),
            final(self).wf(),
            final(self).cycles == old(self).cycles,
            final(self).step_cycles == old(self).step_cycles,
    {
        if rd == 15 {
            let state = if data & 1 != 0 {
                CpuState::THUMB
            } else {
                CpuState::ARM
            };
            self.branch_to(state, data);
        } else {
            self.set_reg(rd, data);
        }
    }

    fn store_value(&self, rd: usize) -> (r: u32)
        requires
            rd < 16,
        ensures
            r == self.spec_store_value(rd as int),
    {
        if rd == 15 {
            self.get_reg(15).wrapping_add(4)
        } else {
            self.get_reg(rd)
        }
    }

    fn single_transfer(&mut self, sb: &mut SysBus, insn: &ArmInstruction, offset: u32)
        requires
            old(self).wf(),
        ensures
            (*final(self), final(sb)@) == old(self).spec_single_transfer(old(sb)@, *insn, offset),
            final(self).wf(),
            final(self).cycles == old(self).cycles,
            final(self).step_cycles >= old(self).step_cycles,
            final(sb).ioregs.io.follows(old(sb).ioregs.io),
    {
        let base = self.get_reg(insn.rn());
        let addr = if insn.pre_index_flag() {
            base.wrapping_add(offset)
        } else {
            base
        };
        let rd = insn.rd();
        let byte = get_bit(insn.raw, 22);
        let cost = sb.get_cycles(addr);
        if insn.load_flag() {
            let data = if byte {
                sb.read_8(addr) as u32
            } else {
                sb.read_32(addr)
            };
            self.write_back(insn, offset);
            self.load_into(rd, data);
            self.add_cycles(cost + 1);
        } else {
            let value = self.store_value(rd);
            proof {
                lemma_field_bounds(value);
            }
            if byte {
                sb.write_8(addr, (value & 0xff) as u8);
            } else {
                sb.write_32(addr, value);
            }
            self.write_back(insn, offset);
            self.add_cycles(cost);
        }
    }

    /// Executes a load or store of a word or a byte.
    pub fn exec_arm_ldr_str(&mut self, sb: &mut SysBus, insn: &ArmInstruction) -> (action:
        CpuAction)
        requires
            old(self).wf(),
        ensures
            (*final(self), final(sb)@) == old(self).spec_ldr_str(old(sb)@, *insn),
            action == final(self).spec_action(),
            final(self).wf(),
            final(self).cycles == old(self).cycles,
            final(self).step_cycles >= old(self).step_cycles,
            final(sb).ioregs.io.follows(old(sb).ioregs.io),
            valid_mode_bits(final(self).cpsr.spec_get() & 0x1f),
    {
        match self.transfer_offset(insn.ldr_str_offset()) {
            Some(offset) => {
                self.single_transfer(sb, insn, offset);
            },
            None => {
                self.exception(Exception::UndefinedInstruction);
            },
        }
        proof {
            lemma_mode_bits(self.cpsr);
        }
        self.action()
    }

    fn halfword_transfer(
        &mut self,
        sb: &mut SysBus,
        insn: &ArmInstruction,
        offset: u32,
        transfer: ArmHalfwordTransferType,
    )
        requires
            old(self).wf(),
        ensures
            (*final(self), final(sb)@) == old(self).spec_halfword_transfer(
                old(sb)@,
                *insn,
                offset,
                transfer,
            ),
            final(self).wf(),
            final(self).cycles == old(self).cycles,
            final(self).step_cycles >= old(self).step_cycles,
            final(sb).ioregs.io.follows(old(sb).ioregs.io),
    {
        let base = self.get_reg(insn.rn());
        let addr = if insn.pre_index_flag() {
            base.wrapping_add(offset)
        } else {
            base
        };
        let rd = insn.rd();
        let cost = sb.get_cycles(addr);
        if insn.load_flag() {
            let data: u32 = match transfer {
                ArmHalfwordTransferType::UnsignedHalfwords => sb.read_16(addr) as u32,
                ArmHalfwordTransferType::SignedByte => {
                    let b = sb.read_8(addr);
                    if b < 0x80 {
                        b as u32
                    } else {
                        b as u32 + 0xffff_ff00
                    }
                },
                ArmHalfwordTransferType::SignedHalfwords => {
                    let h = sb.read_16(addr);
                    if h < 0x8000 {
                        h as u32
                    } else {
                        h as u32 + 0xffff_0000
                    }
                },
            };
            self.write_back(insn, offset);
            self.load_into(rd, data);
            self.add_cycles(cost + 1);
        } else {
            let value = self.store_value(rd);
            proof {
                lemma_word_halves(value, 0, 0);
            }
            sb.write_16(addr, (value & 0xffff) as u16);
            self.write_back(insn, offset);
            self.add_cycles(cost);
        }
    }

    /// Executes a load or store of a halfword or a signed byte.
    pub fn exec_arm_ldr_str_hs(&mut self, sb: &mut SysBus, insn: &ArmInstruction) -> (action:
        CpuAction)
        requires
            old(self).wf(),
        ensures
            (*final(self), final(sb)@) == old(self).spec_ldr_str_hs(old(sb)@, *insn),
            action == final(self).spec_action(),
            final(self).wf(),
            final(self).cycles == old(self).cycles,
            final(self).step_cycles >= old(self).step_cycles,
            final(sb).ioregs.io.follows(old(sb).ioregs.io),
            valid_mode_bits(final(self).cpsr.spec_get() & 0x1f),
    {
        match (insn.ldr_str_hs_offset(), insn.halfword_data_transfer_type()) {
            (Ok(operand), Ok(transfer)) => {
                match self.transfer_offset(operand) {
                    Some(offset) => {
                        self.halfword_transfer(sb, insn, offset, transfer);
                    },
                    None => {
                        self.exception(Exception::UndefinedInstruction);
                    },
                }
            },
            _ => {
                self.exception(Exception::UndefinedInstruction);
            },
        }
        proof {
            lemma_mode_bits(self.cpsr);
        }
        self.action()
    }

    /// Executes a swap of a register with memory.
    pub fn exec_arm_swp(&mut self, sb: &mut SysBus, insn: &ArmInstruction) -> (action: CpuAction)
        requires
            old(self).wf(),
        ensures
            (*final(self), final(sb)@) == old(self).spec_swp(old(sb)@, *insn),
            action == final(self).spec_action(),
            final(self).wf(),
            final(self).cycles == old(self).cycles,
            final(self).step_cycles >= old(self).step_cycles,
            final(sb).ioregs.io.follows(old(sb).ioregs.io),
            valid_mode_bits(final(self).cpsr.spec_get() & 0x1f),
    {
        let addr = self.get_reg(insn.rn());
        let value = self.get_reg(insn.rm());
        let cost = sb.get_cycles(addr);
        proof {
            lemma_field_bounds(value);
        }
        let data = if get_bit(insn.raw, 22) {
            let t = sb.read_8(addr) as u32;
            sb.write_8(addr, (value & 0xff) as u8);
            t
        } else {
            let t = sb.read_32(addr);
            sb.write_32(addr, value);
            t
        };
        self.set_reg(insn.rd(), data);
        self.add_cycles(2 * cost + 1);
        proof {
            lemma_mode_bits(self.cpsr);
        }
        self.action()
    }
}

/// Whether the register list `list` names register `r`.
pub open spec fn listed(list: u16, r: int) -> bool {
    list & (1u16 << (r as u16)) != 0
}

/// How many of the registers `r` to 15 the list names.
pub open spec fn list_count(list: u16, r: int) -> int
    decreases 16 - r,
{
    if r >= 16 {
        0
    } else if listed(list, r) {
        1 + list_count(list, r + 1)
    } else {
        list_count(list, r + 1)
    }
}

/// The cycles of the accesses of a block transfer that has come to
/// register `r` and address `addr`.
pub open spec fn block_cycles(list: u16, r: int, addr: u32) -> int
    decreases 16 - r,
{
    if r >= 16 {
        0
    } else if listed(list, r) {
        access_cycles(addr) + block_cycles(list, r + 1, addr.wrapping_add(4))
    } else {
        block_cycles(list, r + 1, addr)
    }
}

/// The count of listed registers is between 0 and the number of registers
/// that are left, and the cycles are at most five for each.
pub proof fn lemma_list_count_bounds(list: u16, r: int, addr: u32)
    requires
        0 <= r <= 16,
    ensures
        0 <= list_count(list, r) <= 16 - r,
        0 <= block_cycles(list, r, addr) <= 5 * (16 - r),
    decreases 16 - r,
{
    if r < 16 {
        lemma_list_count_bounds(list, r + 1, addr);
        lemma_list_count_bounds(list, r + 1, addr.wrapping_add(4));
    }
}

impl Core {
    /// The register list of a block transfer.
    pub open spec fn spec_block_list(insn: ArmInstruction) -> u16 {
        (insn.raw & 0xffff) as u16
    }

    /// The lowest address of a block transfer. The block lies above the
    /// base register if bit 23 is set and below it if not, and the word at
    /// the base register itself belongs to it in two of the four cases.
    pub open spec fn spec_block_start(self, insn: ArmInstruction) -> u32 {
        let base = self.reg(insn.spec_rn() as int);
        let size = (4 * list_count(Self::spec_block_list(insn), 0)) as u32;
        if bit(insn.raw, 23) {
            if bit(insn.raw, 24) {
                base.wrapping_add(4)
            } else {
                base
            }
        } else {
            if bit(insn.raw, 24) {
                base.wrapping_sub(size)
            } else {
                base.wrapping_sub(size).wrapping_add(4)
            }
        }
    }

    /// What the base register holds after write-back: the base moved by
    /// four bytes for each listed register, up if bit 23 is set, else down.
    pub open spec fn spec_block_end(self, insn: ArmInstruction) -> u32 {
        let base = self.reg(insn.spec_rn() as int);
        let size = (4 * list_count(Self::spec_block_list(insn), 0)) as u32;
        if bit(insn.raw, 23) {
            base.wrapping_add(size)
        } else {
            base.wrapping_sub(size)
        }
    }

    /// The mode whose registers a block transfer moves: User mode if the S
    /// bit is set, unless the instruction loads R15; else the current mode.
    pub open spec fn spec_block_mode(self, insn: ArmInstruction) -> CpuMode {
        if bit(insn.raw, 22) && !(bit(insn.raw, 20) && listed(Self::spec_block_list(insn), 15)) {
            CpuMode::User
        } else {
            self.cpsr.mode
        }
    }

    /// The state after the listed registers from `r` on have been loaded,
    /// in ascending order, from ascending addresses starting at `addr`.
    pub open spec fn spec_ldm_from(self, bus: BusState, list: u16, mode: CpuMode, r: int, addr: u32)
        -> Core
        decreases 16 - r,
    {
        if r >= 16 {
            self
        } else if listed(list, r) {
            self.with_reg_in(mode, r, bus.read_32(addr)).spec_ldm_from(
                bus,
                list,
                mode,
                r + 1,
                addr.wrapping_add(4),
            )
        } else {
            self.spec_ldm_from(bus, list, mode, r + 1, addr)
        }
    }

    /// What a block store writes for register `r`: R15 is stored three
    /// words ahead of the instruction.
    pub open spec fn spec_block_store_value(self, mode: CpuMode, r: int) -> u32 {
        if r == 15 {
            self.reg(15).wrapping_add(4)
        } else {
            self.reg_in(mode, r)
        }
    }

    /// The bus after the listed registers from `r` on have been stored, in
    /// ascending order, at ascending addresses starting at `addr`.
    pub open spec fn spec_stm_from(self, bus: BusState, list: u16, mode: CpuMode, r: int, addr: u32)
        -> BusState
        decreases 16 - r,
    {
        if r >= 16 {
            bus
        } else if listed(list, r) {
            self.spec_stm_from(
                bus.write_32(addr, self.spec_block_store_value(mode, r)),
                list,
                mode,
                r + 1,
                addr.wrapping_add(4),
            )
        } else {
            self.spec_stm_from(bus, list, mode, r + 1, addr)
        }
    }

    /// The state after a block load from `start`: the base register is
    /// written back first if the instruction asks for it, so that a loaded
    /// base register keeps the loaded value; then the listed registers are
    /// loaded; and a load of R15 with the S bit set makes the saved status
    /// register the current one.
    pub open spec fn spec_ldm(self, bus: BusState, insn: ArmInstruction, start: u32, end: u32) -> Core {
        let list = Self::spec_block_list(insn);
        let based = if bit(insn.raw, 21) {
            self.with_reg(insn.spec_rn() as int, end)
        } else {
            self
        };
        let loaded = based.spec_ldm_from(bus, list, self.spec_block_mode(insn), 0, start);
        (if bit(insn.raw, 22) && listed(list, 15) {
            Core { cpsr: self.spec_spsr(), ..loaded }
        } else {
            loaded
        }).with_cycles((block_cycles(list, 0, start) + 1) as u64)
    }

    /// Processor and bus after a block store to `start`: the listed
    /// registers are stored as they were, and the base register is written
    /// back afterwards if the instruction asks for it.
    pub open spec fn spec_stm(self, bus: BusState, insn: ArmInstruction, start: u32, end: u32) -> (
        Core,
        BusState,
    ) {
        let list = Self::spec_block_list(insn);
        (
            (if bit(insn.raw, 21) {
                self.with_reg(insn.spec_rn() as int, end)
            } else {
                self
            }).with_cycles(block_cycles(list, 0, start) as u64),
            self.spec_stm_from(bus, list, self.spec_block_mode(insn), 0, start),
        )
    }

    /// LDM, STM: the listed registers are moved in ascending order to or
    /// from ascending addresses, whichever way the base register moves.
    pub open spec fn spec_ldm_stm(self, bus: BusState, insn: ArmInstruction) -> (Core, BusState) {
        if bit(insn.raw, 20) {
            (self.spec_ldm(bus, insn, self.spec_block_start(insn), self.spec_block_end(insn)), bus)
        } else {
            self.spec_stm(bus, insn, self.spec_block_start(insn), self.spec_block_end(insn))
        }
    }

    /// Counts the registers that `list` names.
    fn count_listed(list: u16) -> (n: u32)
        ensures
            n == list_count(list, 0),
            n <= 16,
    {
        let mut n: u32 = 0;
        let mut r: usize = 0;
        while r < 16
            invariant
                r <= 16,
                n <= r,
                n + list_count(list, r as int) == list_count(list, 0),
            decreases 16 - r,
        {
            if list & (1u16 << (r as u16)) != 0 {
                n += 1;
            }
            r += 1;
        }
        n
    }

    /// Loads the listed registers. Returns the cycles of the accesses.
    fn load_block(&mut self, sb: &SysBus, list: u16, mode: CpuMode, start: u32) -> (cost: u64)
        requires
            old(self).wf(),
            old(self).cpsr.state == CpuState::ARM,
        ensures
            *final(self) == old(self).spec_ldm_from(sb@, list, mode, 0, start),
            cost == block_cycles(list, 0, start),
            cost <= 80,
            final(self).wf(),
            final(self).pc % 4 == 0,
            final(self).cpsr == old(self).cpsr,
            final(self).cycles == old(self).cycles,
            final(self).step_cycles == old(self).step_cycles,
    {
        let mut addr = start;
        let mut cost: u64 = 0;
        let mut r: usize = 0;
        while r < 16
            invariant
                r <= 16,
                self.wf(),
                self.cpsr == old(self).cpsr,
                self.cpsr.state == CpuState::ARM,
                self.cycles == old(self).cycles,
                self.step_cycles == old(self).step_cycles,
                cost <= 5 * r,
                cost + block_cycles(list, r as int, addr) == block_cycles(list, 0, start),
                self.spec_ldm_from(sb@, list, mode, r as int, addr) == old(self).spec_ldm_from(
                    sb@,
                    list,
                    mode,
                    0,
                    start,
                ),
            decreases 16 - r,
        {
            if list & (1u16 << (r as u16)) != 0 {
                let data = sb.read_32(addr);
                cost += sb.get_cycles(addr);
                self.set_reg_in(mode, r, data);
                addr = addr.wrapping_add(4);
            }
            r += 1;
        }
        cost
    }

    /// Stores the listed registers. Returns the cycles of the accesses.
    fn store_block(&self, sb: &mut SysBus, list: u16, mode: CpuMode, start: u32) -> (cost: u64)
        ensures
            final(sb)@ == self.spec_stm_from(old(sb)@, list, mode, 0, start),
            cost == block_cycles(list, 0, start),
            cost <= 80,
            final(sb).ioregs.io.follows(old(sb).ioregs.io),
    {
        let mut addr = start;
        let mut cost: u64 = 0;
        let mut r: usize = 0;
        while r < 16
            invariant
                r <= 16,
                cost <= 5 * r,
                cost + block_cycles(list, r as int, addr) == block_cycles(list, 0, start),
                self.spec_stm_from(sb@, list, mode, r as int, addr) == self.spec_stm_from(
                    old(sb)@,
                    list,
                    mode,
                    0,
                    start,
                ),
                sb.ioregs.io.follows(old(sb).ioregs.io),
            decreases 16 - r,
        {
            if list & (1u16 << (r as u16)) != 0 {
                let value = if r == 15 {
                    self.get_reg(15).wrapping_add(4)
                } else {
                    self.get_reg_in(mode, r)
                };
                cost += sb.get_cycles(addr);
                sb.write_32(addr, value);
                addr = addr.wrapping_add(4);
            }
            r += 1;
        }
        cost
    }

    /// The lowest address and the written-back base of a block transfer.
    fn block_range(&self, insn: &ArmInstruction) -> (r: (u32, u32))
        ensures
            r.0 == self.spec_block_start(*insn),
            r.1 == self.spec_block_end(*insn),
    {
        let list = insn.register_list();
        let base = self.get_reg(insn.rn());
        let size: u32 = 4 * Self::count_listed(list);
        let pre = insn.pre_index_flag();
        if insn.add_offset_flag() {
            (
                if pre {
                    base.wrapping_add(4)
                } else {
                    base
                },
                base.wrapping_add(size),
            )
        } else {
            (
                if pre {
                    base.wrapping_sub(size)
                } else {
                    base.wrapping_sub(size).wrapping_add(4)
                },
                base.wrapping_sub(size),
            )
        }
    }

    fn block_mode(&self, insn: &ArmInstruction) -> (r: CpuMode)
        ensures
            r == self.spec_block_mode(*insn),
    {
        let list = insn.register_list();
        if insn.psr_and_force_user_flag() && !(insn.load_flag() && list & (1u16 << 15u16) != 0) {
            CpuMode::User
        } else {
            self.cpsr.mode
        }
    }

    fn block_load(&mut self, sb: &SysBus, insn: &ArmInstruction, start: u32, end: u32)
        requires
            old(self).wf(),
            old(self).cpsr.state == CpuState::ARM,
        ensures
            *final(self) == old(self).spec_ldm(sb@, *insn, start, end),
            final(self).wf(),
            final(self).cycles == old(self).cycles,
            final(self).step_cycles >= old(self).step_cycles,
    {
        let list = insn.register_list();
        let mode = self.block_mode(insn);
        let spsr = self.spsr();
        if insn.write_back_flag() {
            self.set_reg(insn.rn(), end);
        }
        let cost = self.load_block(sb, list, mode, start);
        if insn.psr_and_force_user_flag() && list & (1u16 << 15u16) != 0 {
            self.cpsr = spsr;
        }
        self.add_cycles(cost + 1);
    }

    fn block_store(&mut self, sb: &mut SysBus, insn: &ArmInstruction, start: u32, end: u32)
        requires
            old(self).wf(),
        ensures
            (*final(self), final(sb)@) == old(self).spec_stm(old(sb)@, *insn, start, end),
            final(self).wf(),
            final(self).cycles == old(self).cycles,
            final(self).step_cycles >= old(self).step_cycles,
            final(sb).ioregs.io.follows(old(sb).ioregs.io),
    {
        let list = insn.register_list();
        let mode = self.block_mode(insn);
        let cost = self.store_block(sb, list, mode, start);
        if insn.write_back_flag() {
            self.set_reg(insn.rn(), end);
        }
        self.add_cycles(cost);
    }

    /// Executes a load or store of several registers.
    pub fn exec_arm_ldm_stm(&mut self, sb: &mut SysBus, insn: &ArmInstruction) -> (action:
        CpuAction)
        requires
            old(self).wf(),
            old(self).cpsr.state == CpuState::ARM,
        ensures
            (*final(self), final(sb)@) == old(self).spec_ldm_stm(old(sb)@, *insn),
            action == final(self).spec_action(),
            final(self).wf(),
            final(self).cycles == old(self).cycles,
            final(self).step_cycles >= old(self).step_cycles,
            final(sb).ioregs.io.follows(old(sb).ioregs.io),
            valid_mode_bits(final(self).cpsr.spec_get() & 0x1f),
    {
        let (start, end) = self.block_range(insn);
        if insn.load_flag() {
            self.block_load(sb, insn, start, end);
        } else {
            self.block_store(sb, insn, start, end);
        }
        proof {
            lemma_mode_bits(self.cpsr);
        }
        self.action()
    }
}

impl Core {
    /// Processor and bus after the executor `handler` has run on `insn`.
    pub open spec fn spec_dispatch(
        self,
        bus: BusState,
        handler: ArmInstructionHandler,
        insn: ArmInstruction,
    ) -> (Core, BusState) {
        match handler {
            ArmInstructionHandler::BranchExchange => (self.spec_bx(insn), bus),
            ArmInstructionHandler::BranchLink => (self.spec_b_bl(insn), bus),
            ArmInstructionHandler::DataProcessing => (self.spec_data_processing(insn), bus),
            ArmInstructionHandler::SoftwareInterrupt => (
                self.spec_exception(Exception::SoftwareInterrupt),
                bus,
            ),
            ArmInstructionHandler::SingleDataTransfer => self.spec_ldr_str(bus, insn),
            ArmInstructionHandler::HalfwordDataTransfer => self.spec_ldr_str_hs(bus, insn),
            ArmInstructionHandler::BlockDataTransfer => self.spec_ldm_stm(bus, insn),
            ArmInstructionHandler::MoveFromStatus => (self.spec_mrs(insn), bus),
            ArmInstructionHandler::MoveToStatus => (self.spec_msr_reg(insn), bus),
            ArmInstructionHandler::MoveToFlags => (self.spec_msr_flags(insn), bus),
            ArmInstructionHandler::Multiply => (self.spec_mul_mla(insn), bus),
            ArmInstructionHandler::MultiplyLong => (self.spec_mull_mlal(insn), bus),
            ArmInstructionHandler::SingleDataSwap => self.spec_swp(bus, insn),
            ArmInstructionHandler::Undefined => (
                self.spec_exception(Exception::UndefinedInstruction),
                bus,
            ),
        }
    }

    /// Processor and bus after the instruction `insn` has executed, by the
    /// executor of its format.
    pub open spec fn spec_exec_arm(self, bus: BusState, insn: ArmInstruction) -> (Core, BusState) {
        self.spec_dispatch(bus, handler_of(insn.fmt), insn)
    }

    /// Runs the executor `handler` on `insn`, whose condition has passed.
    pub fn dispatch(
        &mut self,
        sb: &mut SysBus,
        handler: ArmInstructionHandler,
        insn: &ArmInstruction,
    ) -> (action: CpuAction)
        requires
            old(self).wf(),
            old(self).cpsr.state == CpuState::ARM,
        ensures
            (*final(self), final(sb)@) == old(self).spec_dispatch(old(sb)@, handler, *insn),
            action == final(self).spec_action(),
            final(self).wf(),
            final(self).cycles == old(self).cycles,
            final(self).step_cycles >= old(self).step_cycles,
            valid_mode_bits(final(self).cpsr.spec_get() & 0x1f),
            handler == ArmInstructionHandler::DataProcessing && insn.spec_rd() == 15 && bit(
                insn.raw,
                20,
            ) && !insn.spec_opcode().spec_is_setting_flags() && old(self).spec_dp_operand2(*insn)
                is Some ==> final(self).cpsr == old(self).spec_spsr(),
            final(sb).ioregs.io.follows(old(sb).ioregs.io),
    {
        let action = match handler {
            ArmInstructionHandler::BranchExchange => self.exec_arm_bx(insn),
            ArmInstructionHandler::BranchLink => self.exec_arm_b_bl(insn),
            ArmInstructionHandler::DataProcessing => self.exec_arm_data_processing(insn),
            ArmInstructionHandler::SoftwareInterrupt => self.exec_arm_swi(insn),
            ArmInstructionHandler::SingleDataTransfer => self.exec_arm_ldr_str(sb, insn),
            ArmInstructionHandler::HalfwordDataTransfer => self.exec_arm_ldr_str_hs(sb, insn),
            ArmInstructionHandler::BlockDataTransfer => self.exec_arm_ldm_stm(sb, insn),
            ArmInstructionHandler::MoveFromStatus => self.exec_arm_mrs(insn),
            ArmInstructionHandler::MoveToStatus => self.exec_arm_msr_reg(insn),
            ArmInstructionHandler::MoveToFlags => self.exec_arm_msr_flags(insn),
            ArmInstructionHandler::Multiply => self.exec_arm_mul_mla(insn),
            ArmInstructionHandler::MultiplyLong => self.exec_arm_mull_mlal(insn),
            ArmInstructionHandler::SingleDataSwap => self.exec_arm_swp(sb, insn),
            ArmInstructionHandler::Undefined => self.exec_arm_undefined(insn),
        };
        proof {
            lemma_mode_bits(self.cpsr);
        }
        action
    }

    /// Executes the decoded instruction `insn`, whose condition has passed.
    pub fn exec_arm(&mut self, sb: &mut SysBus, insn: &ArmInstruction) -> (action: CpuAction)
        requires
            old(self).wf(),
            old(self).cpsr.state == CpuState::ARM,
        ensures
            (*final(self), final(sb)@) == old(self).spec_exec_arm(old(sb)@, *insn),
            action == final(self).spec_action(),
            final(self).wf(),
            final(self).cycles == old(self).cycles,
            final(self).step_cycles >= old(self).step_cycles,
            valid_mode_bits(final(self).cpsr.spec_get() & 0x1f),
            final(sb).ioregs.io.follows(old(sb).ioregs.io),
    {
        self.dispatch(sb, ArmInstructionHandler::from(insn.fmt), insn)
    }
}

/// How many listed registers lie below register `r`.
pub open spec fn list_rank(list: u16, r: int) -> int {
    list_count(list, 0) - list_count(list, r)
}

/// A block load that has come to register `from` leaves the registers
/// below `from` as they are.
pub proof fn lemma_ldm_keeps_lower(
    core: Core,
    bus: BusState,
    list: u16,
    mode: CpuMode,
    from: int,
    addr: u32,
    r: int,
)
    requires
        0 <= r < from <= 16,
        r < 15,
    ensures
        core.spec_ldm_from(bus, list, mode, from, addr).reg_in(mode, r) == core.reg_in(mode, r),
    decreases 16 - from,
{
    if from < 16 {
        if listed(list, from) {
            let next = core.with_reg_in(mode, from, bus.read_32(addr));
            assert(next.reg_in(mode, r) == core.reg_in(mode, r));
            lemma_ldm_keeps_lower(next, bus, list, mode, from + 1, addr.wrapping_add(4), r);
        } else {
            lemma_ldm_keeps_lower(core, bus, list, mode, from + 1, addr, r);
        }
    }
}

/// In a block load that has come to register `from` and address `addr`, a
/// listed register `r` receives the word that lies four bytes above `addr`
/// for each listed register between `from` and `r`.
pub proof fn lemma_ldm_from_order(
    core: Core,
    bus: BusState,
    list: u16,
    mode: CpuMode,
    from: int,
    addr: u32,
    r: int,
)
    requires
        0 <= from <= r < 15,
        listed(list, r),
    ensures
        core.spec_ldm_from(bus, list, mode, from, addr).reg_in(mode, r) == bus.read_32(
            addr.wrapping_add((4 * (list_count(list, from) - list_count(list, r))) as u32),
        ),
    decreases r - from,
{
    lemma_list_count_bounds(list, from, addr);
    lemma_list_count_bounds(list, r, addr);
    if from == r {
        let next = core.with_reg_in(mode, r, bus.read_32(addr));
        assert(next.reg_in(mode, r) == bus.read_32(addr));
        lemma_ldm_keeps_lower(next, bus, list, mode, r + 1, addr.wrapping_add(4), r);
    } else {
        lemma_list_count_bounds(list, from + 1, addr);
        lemma_list_count_monotonic(list, from + 1, r);
        if listed(list, from) {
            lemma_ldm_from_order(
                core.with_reg_in(mode, from, bus.read_32(addr)),
                bus,
                list,
                mode,
                from + 1,
                addr.wrapping_add(4),
                r,
            );
        } else {
            lemma_ldm_from_order(core, bus, list, mode, from + 1, addr, r);
        }
    }
}

/// The registers from `a` on are at least as many as those from `b` on, if
/// `a` is not above `b`.
pub proof fn lemma_list_count_monotonic(list: u16, a: int, b: int)
    requires
        0 <= a <= b <= 16,
    ensures
        list_count(list, a) >= list_count(list, b),
    decreases b - a,
{
    if a < b {
        lemma_list_count_monotonic(list, a + 1, b);
    }
}

/// LDM moves its registers in ascending order, whichever way the base
/// register moves: after the instruction, every listed register below R15
/// holds the word that lay four bytes above the lowest address of the block
/// for each listed register below it.
pub proof fn lemma_ldm_ascending(core: Core, bus: BusState, insn: ArmInstruction, r: int)
    requires
        bit(insn.raw, 20),
        0 <= r < 15,
        listed(Core::spec_block_list(insn), r),
    ensures
        core.spec_ldm_stm(bus, insn).0.reg_in(core.spec_block_mode(insn), r) == bus.read_32(
            core.spec_block_start(insn).wrapping_add(
                (4 * list_rank(Core::spec_block_list(insn), r)) as u32,
            ),
        ),
{
    let list = Core::spec_block_list(insn);
    let based = if bit(insn.raw, 21) {
        core.with_reg(insn.spec_rn() as int, core.spec_block_end(insn))
    } else {
        core
    };
    lemma_ldm_from_order(based, bus, list, core.spec_block_mode(insn), 0, core.spec_block_start(insn), r);
}

/// STM moves its registers in ascending order, whichever way the base
/// register moves: the lowest listed register is stored first, at the
/// lowest address of the block, and the others follow above it.
pub proof fn lemma_stm_ascending(
    core: Core,
    bus: BusState,
    list: u16,
    mode: CpuMode,
    from: int,
    addr: u32,
    r: int,
)
    requires
        0 <= from <= r < 16,
        listed(list, r),
        forall|k: int| from <= k < r ==> !listed(list, k),
    ensures
        core.spec_stm_from(bus, list, mode, from, addr) == core.spec_stm_from(
            bus.write_32(addr, core.spec_block_store_value(mode, r)),
            list,
            mode,
            r + 1,
            addr.wrapping_add(4),
        ),
    decreases r - from,
{
    if from < r {
        lemma_stm_ascending(core, bus, list, mode, from + 1, addr, r);
    }
}

} // verus!
