//! The ARM instruction word: its formats and its fields.
pub mod exec;
pub mod lut;

use crate::arm7tdmi::alu::{
    AluOpCode, BarrelShiftOpCode, BarrelShifterValue, ShiftRegisterBy, ShiftedRegister,
};
use crate::bits::{bit, bits, get_bit, get_bits, lemma_field_bounds};
use vstd::prelude::*;
use vstd::std_specs::convert::FromSpecImpl;

verus! {

/// A bus address.
pub type Addr = u32;

#[derive(Debug, Clone, Copy, PartialEq, Eq, Structural)]
pub enum ArmDecodeErrorKind {
    UnknownInstructionFormat,
    DecodedPartDoesNotBelongToInstruction,
    UndefinedConditionCode(u32),
    InvalidShiftType(u32),
    InvalidHSBits(u32),
}

#[derive(Debug, Clone, Copy, PartialEq, Eq, Structural)]
pub struct ArmDecodeError {
    pub kind: ArmDecodeErrorKind,
    pub insn: u32,
    pub addr: Addr,
}

impl ArmDecodeError {
    pub fn new(kind: ArmDecodeErrorKind, insn: u32, addr: Addr) -> (r: ArmDecodeError)
        ensures
            r == (ArmDecodeError { kind, insn, addr }),
    {
        ArmDecodeError { kind: kind, insn: insn, addr: addr }
    }
}

#[derive(Debug, Clone, Copy, PartialEq, Eq, Structural)]
pub enum ArmCond {
    EQ,
    NE,
    HS,
    LO,
    MI,
    PL,
    VS,
    VC,
    HI,
    LS,
    GE,
    LT,
    GT,
    LE,
    AL,
}

impl ArmCond {
    /// The condition that the four-bit field `code` names. `0b1111` names
    /// none.
    pub open spec fn spec_from_code(code: u32) -> Option<ArmCond> {
        if code == 0 {
            Some(ArmCond::EQ)
        } else if code == 1 {
            Some(ArmCond::NE)
        } else if code == 2 {
            Some(ArmCond::HS)
        } else if code == 3 {
            Some(ArmCond::LO)
        } else if code == 4 {
            Some(ArmCond::MI)
        } else if code == 5 {
            Some(ArmCond::PL)
        } else if code == 6 {
            Some(ArmCond::VS)
        } else if code == 7 {
            Some(ArmCond::VC)
        } else if code == 8 {
            Some(ArmCond::HI)
        } else if code == 9 {
            Some(ArmCond::LS)
        } else if code == 10 {
            Some(ArmCond::GE)
        } else if code == 11 {
            Some(ArmCond::LT)
        } else if code == 12 {
            Some(ArmCond::GT)
        } else if code == 13 {
            Some(ArmCond::LE)
        } else if code == 14 {
            Some(ArmCond::AL)
        } else {
            None
        }
    }

    pub fn from_code(code: u32) -> (r: Option<ArmCond>)
        ensures
            r == ArmCond::spec_from_code(code),
    {
        if code == 0 {
            Some(ArmCond::EQ)
        } else if code == 1 {
            Some(ArmCond::NE)
        } else if code == 2 {
            Some(ArmCond::HS)
        } else if code == 3 {
            Some(ArmCond::LO)
        } else if code == 4 {
            Some(ArmCond::MI)
        } else if code == 5 {
            Some(ArmCond::PL)
        } else if code == 6 {
            Some(ArmCond::VS)
        } else if code == 7 {
            Some(ArmCond::VC)
        } else if code == 8 {
            Some(ArmCond::HI)
        } else if code == 9 {
            Some(ArmCond::LS)
        } else if code == 10 {
            Some(ArmCond::GE)
        } else if code == 11 {
            Some(ArmCond::LT)
        } else if code == 12 {
            Some(ArmCond::GT)
        } else if code == 13 {
            Some(ArmCond::LE)
        } else if code == 14 {
            Some(ArmCond::AL)
        } else {
            None
        }
    }
}

#[derive(Debug, Clone, Copy, PartialEq, Eq, Structural)]
pub enum ArmFormat {
    BranchExchange,
    BranchLink,
    SoftwareInterrupt,
    Multiply,
    MultiplyLong,
    SingleDataTransfer,
    HalfwordDataTransferRegOffset,
    HalfwordDataTransferImmediateOffset,
    DataProcessing,
    BlockDataTransfer,
    SingleDataSwap,
    /// Transfer PSR contents to a register
    MoveFromStatus,
    /// Transfer register contents to PSR
    MoveToStatus,
    /// Transfer immediate/register to PSR flags only
    MoveToFlags,
    Undefined,
}

/// The format of an instruction word: the first of these patterns, in this
/// order, that the word matches under its mask. The condition field takes no
/// part.
pub open spec fn arm_format(raw: u32) -> ArmFormat {
    if (0x0fff_fff0 & raw) == 0x012f_ff10 {
        ArmFormat::BranchExchange
    } else if (0xe000_0010 & raw) == 0x0600_0000 {
        ArmFormat::Undefined
    } else if (0x0fb0_0ff0 & raw) == 0x0100_0090 {
        ArmFormat::SingleDataSwap
    } else if (0x0fc0_00f0 & raw) == 0x0000_0090 {
        ArmFormat::Multiply
    } else if (0x0f80_00f0 & raw) == 0x0080_0090 {
        ArmFormat::MultiplyLong
    } else if (0x0fbf_0fff & raw) == 0x010f_0000 {
        ArmFormat::MoveFromStatus
    } else if (0x0fbf_fff0 & raw) == 0x0129_f000 {
        ArmFormat::MoveToStatus
    } else if (0x0dbf_f000 & raw) == 0x0128_f000 {
        ArmFormat::MoveToFlags
    } else if (0x0c00_0000 & raw) == 0x0400_0000 {
        ArmFormat::SingleDataTransfer
    } else if (0x0e40_0f90 & raw) == 0x0000_0090 {
        ArmFormat::HalfwordDataTransferRegOffset
    } else if (0x0e40_0090 & raw) == 0x0040_0090 {
        ArmFormat::HalfwordDataTransferImmediateOffset
    } else if (0x0e00_0000 & raw) == 0x0800_0000 {
        ArmFormat::BlockDataTransfer
    } else if (0x0e00_0000 & raw) == 0x0a00_0000 {
        ArmFormat::BranchLink
    } else if (0x0f00_0000 & raw) == 0x0f00_0000 {
        ArmFormat::SoftwareInterrupt
    } else if (0x0c00_0000 & raw) == 0x0000_0000 {
        ArmFormat::DataProcessing
    } else {
        ArmFormat::Undefined
    }
}

impl From<u32> for ArmFormat {
    fn from(raw: u32) -> (r: ArmFormat) {
        if (0x0fff_fff0 & raw) == 0x012f_ff10 {
            ArmFormat::BranchExchange
        } else if (0xe000_0010 & raw) == 0x0600_0000 {
            ArmFormat::Undefined
        } else if (0x0fb0_0ff0 & raw) == 0x0100_0090 {
            ArmFormat::SingleDataSwap
        } else if (0x0fc0_00f0 & raw) == 0x0000_0090 {
            ArmFormat::Multiply
        } else if (0x0f80_00f0 & raw) == 0x0080_0090 {
            ArmFormat::MultiplyLong
        } else if (0x0fbf_0fff & raw) == 0x010f_0000 {
            ArmFormat::MoveFromStatus
        } else if (0x0fbf_fff0 & raw) == 0x0129_f000 {
            ArmFormat::MoveToStatus
        } else if (0x0dbf_f000 & raw) == 0x0128_f000 {
            ArmFormat::MoveToFlags
        } else if (0x0c00_0000 & raw) == 0x0400_0000 {
            ArmFormat::SingleDataTransfer
        } else if (0x0e40_0f90 & raw) == 0x0000_0090 {
            ArmFormat::HalfwordDataTransferRegOffset
        } else if (0x0e40_0090 & raw) == 0x0040_0090 {
            ArmFormat::HalfwordDataTransferImmediateOffset
        } else if (0x0e00_0000 & raw) == 0x0800_0000 {
            ArmFormat::BlockDataTransfer
        } else if (0x0e00_0000 & raw) == 0x0a00_0000 {
            ArmFormat::BranchLink
        } else if (0x0f00_0000 & raw) == 0x0f00_0000 {
            ArmFormat::SoftwareInterrupt
        } else if (0x0c00_0000 & raw) == 0x0000_0000 {
            ArmFormat::DataProcessing
        } else {
            ArmFormat::Undefined
        }
    }
}

impl FromSpecImpl<u32> for ArmFormat {
    open spec fn obeys_from_spec() -> bool {
        true
    }

    open spec fn from_spec(raw: u32) -> ArmFormat {
        arm_format(raw)
    }
}

#[derive(Debug, Clone, Copy, PartialEq, Eq, Structural)]
pub enum ArmHalfwordTransferType {
    UnsignedHalfwords,
    SignedByte,
    SignedHalfwords,
}

impl ArmHalfwordTransferType {
    /// The transfer that the two bits `code` select: 1 an unsigned halfword,
    /// 2 a signed byte, 3 a signed halfword. 0 selects none.
    pub open spec fn spec_from_code(code: u32) -> Option<ArmHalfwordTransferType> {
        if code == 1 {
            Some(ArmHalfwordTransferType::UnsignedHalfwords)
        } else if code == 2 {
            Some(ArmHalfwordTransferType::SignedByte)
        } else if code == 3 {
            Some(ArmHalfwordTransferType::SignedHalfwords)
        } else {
            None
        }
    }

    pub fn from_code(code: u32) -> (r: Option<ArmHalfwordTransferType>)
        ensures
            r == ArmHalfwordTransferType::spec_from_code(code),
    {
        if code == 1 {
            Some(ArmHalfwordTransferType::UnsignedHalfwords)
        } else if code == 2 {
            Some(ArmHalfwordTransferType::SignedByte)
        } else if code == 3 {
            Some(ArmHalfwordTransferType::SignedHalfwords)
        } else {
            None
        }
    }
}

#[derive(Debug, Clone, Copy, PartialEq, Eq, Structural)]
pub struct ArmInstruction {
    pub fmt: ArmFormat,
    pub raw: u32,
    pub pc: Addr,
}

/// The little-endian word made of four bytes.
pub open spec fn word_of_bytes(b0: u8, b1: u8, b2: u8, b3: u8) -> u32 {
    (b0 as u32) | ((b1 as u32) << 8u32) | ((b2 as u32) << 16u32) | ((b3 as u32) << 24u32)
}

/// The branch offset in bytes of a 24-bit field: the field read as a signed
/// number, times four.
pub open spec fn branch_offset_of(field: u32) -> int {
    if field < 0x80_0000 {
        4 * field
    } else {
        4 * (field - 0x100_0000)
    }
}

proof fn lemma_branch_offset(field: u32)
    by (bit_vector)
    requires
        field < 0x100_0000,
    ensures
        field < 0x80_0000 ==> ((field << 8u32) as i32) >> 6u32 == 4 * field,
        field >= 0x80_0000 ==> ((field << 8u32) as i32) >> 6u32 == 4 * (field - 0x100_0000),
{
}

impl ArmInstruction {
    pub fn new(raw: u32, pc: Addr, fmt: ArmFormat) -> (r: ArmInstruction)
        ensures
            r == (ArmInstruction { fmt, raw, pc }),
    {
        ArmInstruction { fmt, raw, pc }
    }

    /// The instruction that the word `raw` found at `addr` decodes to.
    pub open spec fn spec_decode(raw: u32, addr: Addr) -> ArmInstruction {
        ArmInstruction { fmt: arm_format(raw), raw, pc: addr }
    }

    /// Decodes the instruction word `raw` found at `addr`.
    pub fn decode(raw: u32, addr: Addr) -> (r: ArmInstruction)
        ensures
            r == ArmInstruction::spec_decode(raw, addr),
    {
        let fmt = ArmFormat::from(raw);
        ArmInstruction { fmt: fmt, raw: raw, pc: addr }
    }

    /// Decodes the instruction whose word is stored, least significant byte
    /// first, in the first four bytes of `bytes`.
    pub fn decode_from_bytes(bytes: &[u8], addr: Addr) -> (r: ArmInstruction)
        requires
            bytes.len() >= 4,
        ensures
            r == ArmInstruction::spec_decode(
                word_of_bytes(bytes[0], bytes[1], bytes[2], bytes[3]),
                addr,
            ),
    {
        let raw: u32 = (bytes[0] as u32) | ((bytes[1] as u32) << 8u32) | ((bytes[2] as u32)
            << 16u32) | ((bytes[3] as u32) << 24u32);
        Self::decode(raw, addr)
    }

    pub fn get_raw(&self) -> (r: u32)
        ensures
            r == self.raw,
    {
        self.raw
    }

    pub fn make_decode_error(&self, kind: ArmDecodeErrorKind) -> (r: ArmDecodeError)
        ensures
            r == (ArmDecodeError { kind, insn: self.raw, addr: self.pc }),
    {
        ArmDecodeError { kind: kind, insn: self.raw, addr: self.pc }
    }

    /// The condition under which the instruction executes, from bits 31..28.
    pub open spec fn spec_cond(self) -> Option<ArmCond> {
        ArmCond::spec_from_code(bits(self.raw, 28, 32))
    }

    /// The number of the first operand register. Multiplies and branch
    /// exchanges keep it elsewhere than the other formats.
    pub open spec fn spec_rn(self) -> usize {
        match self.fmt {
            ArmFormat::Multiply => bits(self.raw, 12, 16) as usize,
            ArmFormat::MultiplyLong => bits(self.raw, 8, 12) as usize,
            ArmFormat::BranchExchange => bits(self.raw, 0, 4) as usize,
            _ => bits(self.raw, 16, 20) as usize,
        }
    }

    /// The number of the destination register.
    pub open spec fn spec_rd(self) -> usize {
        match self.fmt {
            ArmFormat::Multiply => bits(self.raw, 16, 20) as usize,
            _ => bits(self.raw, 12, 16) as usize,
        }
    }

    pub open spec fn spec_rm(self) -> usize {
        bits(self.raw, 0, 4) as usize
    }

    pub open spec fn spec_rs(self) -> usize {
        bits(self.raw, 8, 12) as usize
    }

    pub open spec fn spec_rd_lo(self) -> usize {
        bits(self.raw, 12, 16) as usize
    }

    pub open spec fn spec_rd_hi(self) -> usize {
        bits(self.raw, 16, 20) as usize
    }

    pub open spec fn spec_opcode(self) -> AluOpCode {
        AluOpCode::spec_from_code(bits(self.raw, 21, 25))
    }

    /// The byte offset of a branch: bits 23..0 as a signed number, times
    /// four.
    pub open spec fn spec_branch_offset(self) -> int {
        branch_offset_of(bits(self.raw, 0, 24))
    }

    /// The shift operation named by bits 6..5 of a shift field.
    pub open spec fn spec_bs_op(shift_field: u32) -> BarrelShiftOpCode {
        BarrelShiftOpCode::spec_from_code(bits(shift_field, 5, 7))
    }

    /// The shift amount of a shift field: the register in bits 11..8 where
    /// bit 4 is set, the amount in bits 11..7 where it is clear.
    pub open spec fn spec_shift_reg_by(shift_field: u32) -> ShiftRegisterBy {
        if bit(shift_field, 4) {
            ShiftRegisterBy::ByRegister(bits(shift_field, 8, 12) as usize)
        } else {
            ShiftRegisterBy::ByAmount(bits(shift_field, 7, 12))
        }
    }

    /// The offset of a word or byte transfer: a shifted register where bit 25
    /// is set, else the 12-bit immediate, negated where bit 23 is clear.
    pub open spec fn spec_ldr_str_offset(self) -> BarrelShifterValue {
        let ofs = bits(self.raw, 0, 12);
        if bit(self.raw, 25) {
            BarrelShifterValue::ShiftedRegister(
                ShiftedRegister {
                    reg: (ofs & 0xf) as usize,
                    shift_by: Self::spec_shift_reg_by(ofs),
                    bs_op: Self::spec_bs_op(ofs),
                    added: Some(bit(self.raw, 23)),
                },
            )
        } else if bit(self.raw, 23) {
            BarrelShifterValue::ImmediateValue(ofs as i32)
        } else {
            BarrelShifterValue::ImmediateValue((-(ofs as int)) as i32)
        }
    }

    /// The offset of a halfword or signed transfer: for the immediate format
    /// bits 11..8 and 3..0 put together, negated where bit 23 is clear; for
    /// the register format the register in bits 3..0, unshifted.
    pub open spec fn spec_ldr_str_hs_offset(self) -> Option<BarrelShifterValue> {
        match self.fmt {
            ArmFormat::HalfwordDataTransferImmediateOffset => {
                let offset8 = bits(self.raw, 8, 12) * 16 + bits(self.raw, 0, 4);
                Some(
                    BarrelShifterValue::ImmediateValue(
                        if bit(self.raw, 23) {
                            offset8 as i32
                        } else {
                            (-offset8) as i32
                        },
                    ),
                )
            },
            ArmFormat::HalfwordDataTransferRegOffset => Some(
                BarrelShifterValue::ShiftedRegister(
                    ShiftedRegister {
                        reg: (self.raw & 0xf) as usize,
                        shift_by: ShiftRegisterBy::ByAmount(0),
                        bs_op: BarrelShiftOpCode::LSL,
                        added: Some(bit(self.raw, 23)),
                    },
                ),
            ),
            _ => None,
        }
    }

    /// The second operand of a data-processing instruction: where bit 25 is
    /// set, the byte in bits 7..0 rotated right by twice bits 11..8; else a
    /// shifted register.
    pub open spec fn spec_operand2(self) -> BarrelShifterValue {
        if bit(self.raw, 25) {
            BarrelShifterValue::RotatedImmediate(self.raw & 0xff, (2 * bits(self.raw, 8, 12)) as u32)
        } else {
            BarrelShifterValue::ShiftedRegister(
                ShiftedRegister {
                    reg: (self.raw & 0xf) as usize,
                    bs_op: Self::spec_bs_op(self.raw),
                    shift_by: Self::spec_shift_reg_by(self.raw),
                    added: None,
                },
            )
        }
    }

    /// Fails exactly when bits 31..28 are all set, which names no condition.
    pub fn cond(&self) -> (r: Result<ArmCond, ArmDecodeError>)
        ensures
            match r {
                Ok(c) => self.spec_cond() == Some(c),
                Err(e) => self.spec_cond() is None && e == (ArmDecodeError {
                    kind: ArmDecodeErrorKind::UndefinedConditionCode(bits(self.raw, 28, 32)),
                    insn: self.raw,
                    addr: self.pc,
                }),
            },
    {
        let code = get_bits(self.raw, 28, 32);
        match ArmCond::from_code(code) {
            Some(c) => Ok(c),
            None => Err(self.make_decode_error(ArmDecodeErrorKind::UndefinedConditionCode(code))),
        }
    }

    pub fn rn(&self) -> (r: usize)
        ensures
            r == self.spec_rn(),
            r < 16,
    {
        proof {
            lemma_field_bounds(self.raw);
        }
        match self.fmt {
            ArmFormat::Multiply => get_bits(self.raw, 12, 16) as usize,
            ArmFormat::MultiplyLong => get_bits(self.raw, 8, 12) as usize,
            ArmFormat::BranchExchange => get_bits(self.raw, 0, 4) as usize,
            _ => get_bits(self.raw, 16, 20) as usize,
        }
    }

    pub fn rd(&self) -> (r: usize)
        ensures
            r == self.spec_rd(),
            r < 16,
    {
        proof {
            lemma_field_bounds(self.raw);
        }
        match self.fmt {
            ArmFormat::Multiply => get_bits(self.raw, 16, 20) as usize,
            _ => get_bits(self.raw, 12, 16) as usize,
        }
    }

    pub fn rm(&self) -> (r: usize)
        ensures
            r == self.spec_rm(),
            r < 16,
    {
        proof {
            lemma_field_bounds(self.raw);
        }
        get_bits(self.raw, 0, 4) as usize
    }

    pub fn rs(&self) -> (r: usize)
        ensures
            r == self.spec_rs(),
            r < 16,
    {
        proof {
            lemma_field_bounds(self.raw);
        }
        get_bits(self.raw, 8, 12) as usize
    }

    pub fn rd_lo(&self) -> (r: usize)
        ensures
            r == self.spec_rd_lo(),
            r < 16,
    {
        proof {
            lemma_field_bounds(self.raw);
        }
        get_bits(self.raw, 12, 16) as usize
    }

    pub fn rd_hi(&self) -> (r: usize)
        ensures
            r == self.spec_rd_hi(),
            r < 16,
    {
        proof {
            lemma_field_bounds(self.raw);
        }
        get_bits(self.raw, 16, 20) as usize
    }

    /// The ALU operation of a data-processing instruction, from bits 24..21.
    pub fn opcode(&self) -> (r: AluOpCode)
        ensures
            r == self.spec_opcode(),
    {
        proof {
            lemma_field_bounds(self.raw);
        }
        AluOpCode::from_code(get_bits(self.raw, 21, 25))
    }

    pub fn branch_offset(&self) -> (r: i32)
        ensures
            r == self.spec_branch_offset(),
            r % 4 == 0,
    {
        let field = get_bits(self.raw, 0, 24);
        proof {
            lemma_field_bounds(self.raw);
            lemma_branch_offset(field);
        }
        ((field << 8u32) as i32) >> 6u32
    }

    pub fn load_flag(&self) -> (r: bool)
        ensures
            r == bit(self.raw, 20),
    {
        get_bit(self.raw, 20)
    }

    pub fn set_cond_flag(&self) -> (r: bool)
        ensures
            r == bit(self.raw, 20),
    {
        get_bit(self.raw, 20)
    }

    pub fn write_back_flag(&self) -> (r: bool)
        ensures
            r == bit(self.raw, 21),
    {
        get_bit(self.raw, 21)
    }

    pub fn accumulate_flag(&self) -> (r: bool)
        ensures
            r == bit(self.raw, 21),
    {
        get_bit(self.raw, 21)
    }

    pub fn u_flag(&self) -> (r: bool)
        ensures
            r == bit(self.raw, 22),
    {
        get_bit(self.raw, 22)
    }

    /// Fails exactly when bits 6..5 are both clear.
    pub fn halfword_data_transfer_type(&self) -> (r: Result<
        ArmHalfwordTransferType,
        ArmDecodeError,
    >)
        ensures
            match r {
                Ok(t) => ArmHalfwordTransferType::spec_from_code((self.raw & 0x60) >> 5u32)
                    == Some(t),
                Err(e) => (self.raw & 0x60) >> 5u32 == 0 && e == (ArmDecodeError {
                    kind: ArmDecodeErrorKind::InvalidHSBits(0),
                    insn: self.raw,
                    addr: self.pc,
                }),
            },
    {
        let bits = (self.raw & 0x60) >> 5u32;
        proof {
            lemma_field_bounds(self.raw);
        }
        match ArmHalfwordTransferType::from_code(bits) {
            Some(x) => Ok(x),
            None => Err(
                ArmDecodeError::new(ArmDecodeErrorKind::InvalidHSBits(bits), self.raw, self.pc),
            ),
        }
    }

    /// The width in bytes of a single data transfer: 1 where bit 22 is set,
    /// else 4.
    pub fn transfer_size(&self) -> (r: usize)
        ensures
            r == if bit(self.raw, 22) {
                1usize
            } else {
                4usize
            },
    {
        if get_bit(self.raw, 22) {
            1
        } else {
            4
        }
    }

    pub fn psr_and_force_user_flag(&self) -> (r: bool)
        ensures
            r == bit(self.raw, 22),
    {
        get_bit(self.raw, 22)
    }

    pub fn spsr_flag(&self) -> (r: bool)
        ensures
            r == bit(self.raw, 22),
    {
        get_bit(self.raw, 22)
    }

    pub fn add_offset_flag(&self) -> (r: bool)
        ensures
            r == bit(self.raw, 23),
    {
        get_bit(self.raw, 23)
    }

    pub fn pre_index_flag(&self) -> (r: bool)
        ensures
            r == bit(self.raw, 24),
    {
        get_bit(self.raw, 24)
    }

    pub fn link_flag(&self) -> (r: bool)
        ensures
            r == bit(self.raw, 24),
    {
        get_bit(self.raw, 24)
    }

    /// gets offset used by ldr/str instructions
    pub fn ldr_str_offset(&self) -> (r: BarrelShifterValue)
        ensures
            r == self.spec_ldr_str_offset(),
            r.valid(),
    {
        let ofs = get_bits(self.raw, 0, 12);
        proof {
            lemma_field_bounds(self.raw);
            lemma_field_bounds(ofs);
        }
        if get_bit(self.raw, 25) {
            let rm = ofs & 0xf;
            BarrelShifterValue::ShiftedRegister(
                ShiftedRegister {
                    reg: rm as usize,
                    shift_by: self.get_shift_reg_by(ofs),
                    bs_op: self.get_bs_op(ofs),
                    added: Some(self.add_offset_flag()),
                },
            )
        } else {
            let ofs: i32 = if self.add_offset_flag() {
                ofs as i32
            } else {
                -(ofs as i32)
            };
            BarrelShifterValue::ImmediateValue(ofs)
        }
    }

    pub fn get_bs_op(&self, shift_field: u32) -> (r: BarrelShiftOpCode)
        ensures
            r == Self::spec_bs_op(shift_field),
    {
        proof {
            lemma_field_bounds(shift_field);
        }
        BarrelShiftOpCode::from_code(get_bits(shift_field, 5, 7))
    }

    pub fn get_shift_reg_by(&self, shift_field: u32) -> (r: ShiftRegisterBy)
        ensures
            r == Self::spec_shift_reg_by(shift_field),
            r matches ShiftRegisterBy::ByRegister(rs) ==> rs < 16,
            r matches ShiftRegisterBy::ByAmount(amount) ==> amount < 32,
    {
        proof {
            lemma_field_bounds(shift_field);
        }
        if get_bit(shift_field, 4) {
            let rs = get_bits(shift_field, 8, 12) as usize;
            ShiftRegisterBy::ByRegister(rs)
        } else {
            let amount = get_bits(shift_field, 7, 12);
            ShiftRegisterBy::ByAmount(amount)
        }
    }

    /// Fails exactly when the instruction is in neither halfword transfer
    /// format.
    pub fn ldr_str_hs_offset(&self) -> (r: Result<BarrelShifterValue, ArmDecodeError>)
        ensures
            match r {
                Ok(v) => self.spec_ldr_str_hs_offset() == Some(v) && v.valid(),
                Err(e) => self.spec_ldr_str_hs_offset() is None && e == (ArmDecodeError {
                    kind: ArmDecodeErrorKind::DecodedPartDoesNotBelongToInstruction,
                    insn: self.raw,
                    addr: self.pc,
                }),
            },
    {
        proof {
            lemma_field_bounds(self.raw);
        }
        match self.fmt {
            ArmFormat::HalfwordDataTransferImmediateOffset => {
                let offset8: u32 = get_bits(self.raw, 8, 12) * 16 + get_bits(self.raw, 0, 4);
                let offset8: i32 = if self.add_offset_flag() {
                    offset8 as i32
                } else {
                    -(offset8 as i32)
                };
                Ok(BarrelShifterValue::ImmediateValue(offset8))
            },
            ArmFormat::HalfwordDataTransferRegOffset => {
                Ok(
                    BarrelShifterValue::ShiftedRegister(
                        ShiftedRegister {
                            reg: (self.raw & 0xf) as usize,
                            shift_by: ShiftRegisterBy::ByAmount(0),
                            bs_op: BarrelShiftOpCode::LSL,
                            added: Some(self.add_offset_flag()),
                        },
                    ),
                )
            },
            _ => Err(
                self.make_decode_error(ArmDecodeErrorKind::DecodedPartDoesNotBelongToInstruction),
            ),
        }
    }

    pub fn operand2(&self) -> (r: BarrelShifterValue)
        ensures
            r == self.spec_operand2(),
            r.valid(),
    {
        proof {
            lemma_field_bounds(self.raw);
        }
        if get_bit(self.raw, 25) {
            let immediate = self.raw & 0xff;
            let rotate = 2 * get_bits(self.raw, 8, 12);
            BarrelShifterValue::RotatedImmediate(immediate, rotate)
        } else {
            let reg = self.raw & 0xf;
            let shifted_reg = ShiftedRegister {
                reg: reg as usize,
                bs_op: self.get_bs_op(self.raw),
                shift_by: self.get_shift_reg_by(self.raw),
                added: None,
            };
            BarrelShifterValue::ShiftedRegister(shifted_reg)
        }
    }

    /// The registers of a block transfer: bit `i` stands for register `i`.
    pub fn register_list(&self) -> (r: u16)
        ensures
            r == self.raw & 0xffff,
    {
        proof {
            lemma_field_bounds(self.raw);
        }
        (self.raw & 0xffff) as u16
    }

    /// The 24 bits that a software interrupt carries for the handler.
    pub fn swi_comment(&self) -> (r: u32)
        ensures
            r == bits(self.raw, 0, 24),
            r == self.raw & 0xff_ffff,
    {
        proof {
            lemma_field_bounds(self.raw);
        }
        get_bits(self.raw, 0, 24)
    }
}

/// The format of an instruction word depends on the word alone: decoded
/// again, wherever and after whatever has executed, a word has the format
/// that it had before.
pub proof fn lemma_decode_stable(raw: u32, addr: Addr, later_addr: Addr)
    ensures
        ArmInstruction::spec_decode(raw, later_addr).fmt == ArmInstruction::spec_decode(
            raw,
            addr,
        ).fmt,
        ArmInstruction::spec_decode(raw, addr).raw == raw,
{
}

proof fn lemma_patterns_ignore_condition(raw: u32)
    by (bit_vector)
    ensures
        ((0x0fff_fff0 & raw) == 0x012f_ff10) == ((0x0fff_fff0 & (raw & 0x0fff_ffff)) == 0x012f_ff10),
        (0xe000_0010 & raw) != 0x0600_0000,
        ((0x0fb0_0ff0 & raw) == 0x0100_0090) == ((0x0fb0_0ff0 & (raw & 0x0fff_ffff)) == 0x0100_0090),
        ((0x0fc0_00f0 & raw) == 0x0000_0090) == ((0x0fc0_00f0 & (raw & 0x0fff_ffff)) == 0x0000_0090),
        ((0x0f80_00f0 & raw) == 0x0080_0090) == ((0x0f80_00f0 & (raw & 0x0fff_ffff)) == 0x0080_0090),
        ((0x0fbf_0fff & raw) == 0x010f_0000) == ((0x0fbf_0fff & (raw & 0x0fff_ffff)) == 0x010f_0000),
        ((0x0fbf_fff0 & raw) == 0x0129_f000) == ((0x0fbf_fff0 & (raw & 0x0fff_ffff)) == 0x0129_f000),
        ((0x0dbf_f000 & raw) == 0x0128_f000) == ((0x0dbf_f000 & (raw & 0x0fff_ffff)) == 0x0128_f000),
        ((0x0c00_0000 & raw) == 0x0400_0000) == ((0x0c00_0000 & (raw & 0x0fff_ffff)) == 0x0400_0000),
        ((0x0e40_0f90 & raw) == 0x0000_0090) == ((0x0e40_0f90 & (raw & 0x0fff_ffff)) == 0x0000_0090),
        ((0x0e40_0090 & raw) == 0x0040_0090) == ((0x0e40_0090 & (raw & 0x0fff_ffff)) == 0x0040_0090),
        ((0x0e00_0000 & raw) == 0x0800_0000) == ((0x0e00_0000 & (raw & 0x0fff_ffff)) == 0x0800_0000),
        ((0x0e00_0000 & raw) == 0x0a00_0000) == ((0x0e00_0000 & (raw & 0x0fff_ffff)) == 0x0a00_0000),
        ((0x0f00_0000 & raw) == 0x0f00_0000) == ((0x0f00_0000 & (raw & 0x0fff_ffff)) == 0x0f00_0000),
        ((0x0c00_0000 & raw) == 0x0000_0000) == ((0x0c00_0000 & (raw & 0x0fff_ffff)) == 0x0000_0000),
{
}

/// The condition field takes no part in the format of a word.
pub proof fn lemma_format_ignores_condition(raw: u32)
    ensures
        arm_format(raw) == arm_format(raw & 0x0fff_ffff),
{
    lemma_patterns_ignore_condition(raw);
    lemma_patterns_ignore_condition(raw & 0x0fff_ffff);
}

} // verus!
