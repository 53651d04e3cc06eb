//! The data-processing datapath: barrel shifter and arithmetic-logic unit.
use crate::arm7tdmi::cpu::{Core, CpuError, CpuResult, REG_PC};
use crate::arm7tdmi::psr::RegPSR;
use crate::bits::{bit, get_bit, i32_of, ror, rotate_right, to_i32, to_u32, u32_of};
use vstd::prelude::*;

verus! {

#[derive(Debug, Clone, Copy, PartialEq, Eq, Structural)]
pub enum AluOpCode {
    AND,
    EOR,
    SUB,
    RSB,
    ADD,
    ADC,
    SBC,
    RSC,
    TST,
    TEQ,
    CMP,
    CMN,
    ORR,
    MOV,
    BIC,
    MVN,
}

impl AluOpCode {
    /// The operations that only set flags and write no register.
    pub open spec fn spec_is_setting_flags(self) -> bool {
        self == AluOpCode::TST || self == AluOpCode::TEQ || self == AluOpCode::CMP || self
            == AluOpCode::CMN
    }

    /// The bitwise operations: their carry comes from the shifter and they
    /// leave the overflow flag alone.
    pub open spec fn spec_is_logical(self) -> bool {
        self == AluOpCode::MOV || self == AluOpCode::MVN || self == AluOpCode::ORR || self
            == AluOpCode::EOR || self == AluOpCode::AND || self == AluOpCode::BIC || self
            == AluOpCode::TST || self == AluOpCode::TEQ
    }

    /// The additions and subtractions.
    pub open spec fn spec_is_arithmetic(self) -> bool {
        !self.spec_is_logical()
    }

    /// The operation that the four-bit field `code` selects.
    pub open spec fn spec_from_code(code: u32) -> AluOpCode {
        if code == 0 {
            AluOpCode::AND
        } else if code == 1 {
            AluOpCode::EOR
        } else if code == 2 {
            AluOpCode::SUB
        } else if code == 3 {
            AluOpCode::RSB
        } else if code == 4 {
            AluOpCode::ADD
        } else if code == 5 {
            AluOpCode::ADC
        } else if code == 6 {
            AluOpCode::SBC
        } else if code == 7 {
            AluOpCode::RSC
        } else if code == 8 {
            AluOpCode::TST
        } else if code == 9 {
            AluOpCode::TEQ
        } else if code == 10 {
            AluOpCode::CMP
        } else if code == 11 {
            AluOpCode::CMN
        } else if code == 12 {
            AluOpCode::ORR
        } else if code == 13 {
            AluOpCode::MOV
        } else if code == 14 {
            AluOpCode::BIC
        } else {
            AluOpCode::MVN
        }
    }

    pub fn is_setting_flags(&self) -> (r: bool)
        ensures
            r == self.spec_is_setting_flags(),
    {
        match self {
            AluOpCode::TST | AluOpCode::TEQ | AluOpCode::CMP | AluOpCode::CMN => true,
            _ => false,
        }
    }

    pub fn is_logical(&self) -> (r: bool)
        ensures
            r == self.spec_is_logical(),
    {
        match self {
            AluOpCode::MOV
            | AluOpCode::MVN
            | AluOpCode::ORR
            | AluOpCode::EOR
            | AluOpCode::AND
            | AluOpCode::BIC
            | AluOpCode::TST
            | AluOpCode::TEQ => true,
            _ => false,
        }
    }

    pub fn is_arithmetic(&self) -> (r: bool)
        ensures
            r == self.spec_is_arithmetic(),
            r == (*self == AluOpCode::ADD || *self == AluOpCode::ADC || *self == AluOpCode::SUB
                || *self == AluOpCode::SBC || *self == AluOpCode::RSB || *self == AluOpCode::RSC
                || *self == AluOpCode::CMP || *self == AluOpCode::CMN),
    {
        match self {
            AluOpCode::ADD
            | AluOpCode::ADC
            | AluOpCode::SUB
            | AluOpCode::SBC
            | AluOpCode::RSB
            | AluOpCode::RSC
            | AluOpCode::CMP
            | AluOpCode::CMN => true,
            _ => false,
        }
    }

    /// The operation that the four-bit field `code` selects.
    pub fn from_code(code: u32) -> (r: AluOpCode)
        requires
            code < 16,
        ensures
            r == AluOpCode::spec_from_code(code),
    {
        if code == 0 {
            AluOpCode::AND
        } else if code == 1 {
            AluOpCode::EOR
        } else if code == 2 {
            AluOpCode::SUB
        } else if code == 3 {
            AluOpCode::RSB
        } else if code == 4 {
            AluOpCode::ADD
        } else if code == 5 {
            AluOpCode::ADC
        } else if code == 6 {
            AluOpCode::SBC
        } else if code == 7 {
            AluOpCode::RSC
        } else if code == 8 {
            AluOpCode::TST
        } else if code == 9 {
            AluOpCode::TEQ
        } else if code == 10 {
            AluOpCode::CMP
        } else if code == 11 {
            AluOpCode::CMN
        } else if code == 12 {
            AluOpCode::ORR
        } else if code == 13 {
            AluOpCode::MOV
        } else if code == 14 {
            AluOpCode::BIC
        } else {
            AluOpCode::MVN
        }
    }
}

#[derive(Debug, Clone, Copy, PartialEq, Eq, Structural)]
pub enum BarrelShiftOpCode {
    LSL,
    LSR,
    ASR,
    ROR,
}

impl BarrelShiftOpCode {
    /// The shift that the two-bit field `code` selects.
    pub open spec fn spec_from_code(code: u32) -> BarrelShiftOpCode {
        if code == 0 {
            BarrelShiftOpCode::LSL
        } else if code == 1 {
            BarrelShiftOpCode::LSR
        } else if code == 2 {
            BarrelShiftOpCode::ASR
        } else {
            BarrelShiftOpCode::ROR
        }
    }

    pub fn from_code(code: u32) -> (r: BarrelShiftOpCode)
        requires
            code < 4,
        ensures
            r == BarrelShiftOpCode::spec_from_code(code),
    {
        if code == 0 {
            BarrelShiftOpCode::LSL
        } else if code == 1 {
            BarrelShiftOpCode::LSR
        } else if code == 2 {
            BarrelShiftOpCode::ASR
        } else {
            BarrelShiftOpCode::ROR
        }
    }
}

#[derive(Debug, Clone, Copy, PartialEq, Eq, Structural)]
pub enum ShiftRegisterBy {
    ByAmount(u32),
    ByRegister(usize),
}

#[derive(Debug, Clone, Copy, PartialEq, Eq, Structural)]
pub struct ShiftedRegister {
    pub reg: usize,
    pub shift_by: ShiftRegisterBy,
    pub bs_op: BarrelShiftOpCode,
    pub added: Option<bool>,
}

impl ShiftedRegister {
    /// Both register numbers name one of the sixteen registers.
    pub open spec fn valid(self) -> bool {
        &&& self.reg < 16
        &&& self.shift_by matches ShiftRegisterBy::ByRegister(rs) ==> rs < 16
    }
}

#[derive(Debug, Clone, Copy, PartialEq, Eq, Structural)]
pub enum BarrelShifterValue {
    ImmediateValue(i32),
    RotatedImmediate(u32, u32),
    ShiftedRegister(ShiftedRegister),
}

impl BarrelShifterValue {
    pub open spec fn valid(self) -> bool {
        self matches BarrelShifterValue::ShiftedRegister(shift) ==> shift.valid()
    }

    /// The value of a rotated immediate: the first field rotated right by the
    /// second. Other operands have none.
    pub open spec fn spec_decode_rotated_immediate(self) -> Option<i32> {
        match self {
            BarrelShifterValue::RotatedImmediate(immediate, rotate) => Some(
                i32_of(rotate_right(immediate, rotate)),
            ),
            _ => None,
        }
    }

    /// Decode operand2 as an immediate value
    pub fn decode_rotated_immediate(&self) -> (r: Option<i32>)
        ensures
            r == self.spec_decode_rotated_immediate(),
    {
        if let BarrelShifterValue::RotatedImmediate(immediate, rotate) = self {
            return Some(to_i32(ror(*immediate, *rotate)));
        }
        None
    }
}

/// Logical shift left: result and carry out.
pub open spec fn shift_lsl(val: u32, amount: u32, carry_in: bool) -> (u32, bool) {
    if amount == 0 {
        (val, carry_in)
    } else if amount < 32 {
        (val << amount, bit(val, (32 - amount) as nat))
    } else if amount == 32 {
        (0, bit(val, 0))
    } else {
        (0, false)
    }
}

/// Logical shift right: result and carry out. An amount of zero in the
/// immediate form stands for 32.
pub open spec fn shift_lsr(val: u32, amount: u32, carry_in: bool, immediate: bool) -> (u32, bool) {
    if amount == 0 && !immediate {
        (val, carry_in)
    } else if amount == 0 || amount == 32 {
        (0, bit(val, 31))
    } else if amount < 32 {
        (val >> amount, bit(val, (amount - 1) as nat))
    } else {
        (0, false)
    }
}

/// All ones if bit 31 of `val` is set, zero otherwise.
pub open spec fn sign_fill(val: u32) -> u32 {
    if bit(val, 31) {
        0xffff_ffff
    } else {
        0
    }
}

/// Arithmetic shift right: result and carry out. An amount of zero in the
/// immediate form stands for 32.
pub open spec fn shift_asr(val: u32, amount: u32, carry_in: bool, immediate: bool) -> (u32, bool) {
    if amount == 0 && !immediate {
        (val, carry_in)
    } else if amount == 0 || amount >= 32 {
        (sign_fill(val), bit(val, 31))
    } else {
        (u32_of(i32_of(val) >> amount), bit(val, (amount - 1) as nat))
    }
}

/// Rotate right: result and carry out. An amount of zero in the immediate
/// form is a rotate by one through the carry.
pub open spec fn shift_ror(val: u32, amount: u32, carry_in: bool, immediate: bool) -> (u32, bool) {
    if amount == 0 && !immediate {
        (val, carry_in)
    } else if amount == 0 {
        ((val >> 1u32) | (if carry_in {
            0x8000_0000u32
        } else {
            0u32
        }), bit(val, 0))
    } else {
        (rotate_right(val, amount), bit(rotate_right(val, amount), 31))
    }
}

/// What the barrel shifter makes of `val`: the shifted value and the carry
/// that leaves the shifter. `immediate` says that `amount` comes from the
/// instruction word, not from a register.
pub open spec fn barrel_shift(
    shift: BarrelShiftOpCode,
    val: u32,
    amount: u32,
    carry_in: bool,
    immediate: bool,
) -> (u32, bool) {
    match shift {
        BarrelShiftOpCode::LSL => shift_lsl(val, amount, carry_in),
        BarrelShiftOpCode::LSR => shift_lsr(val, amount, carry_in, immediate),
        BarrelShiftOpCode::ASR => shift_asr(val, amount, carry_in, immediate),
        BarrelShiftOpCode::ROR => shift_ror(val, amount, carry_in, immediate),
    }
}

/// A logical shift left by zero hands value and carry through, whether the
/// amount comes from the instruction or from a register.
pub proof fn lemma_lsl_zero(value: u32, carry_in: bool, immediate: bool)
    ensures
        barrel_shift(BarrelShiftOpCode::LSL, value, 0, carry_in, immediate) == (value, carry_in),
{
}

#[derive(Debug, Clone, Copy, PartialEq, Eq, Structural)]
pub struct BarrelShifter {
    pub carry_out: bool,
}

impl Default for BarrelShifter {
    fn default() -> (r: BarrelShifter)
        ensures
            !r.carry_out,
    {
        BarrelShifter { carry_out: false }
    }
}

impl BarrelShifter {
    /// Performs a generic barrel shifter operation
    pub fn barrel_shift_op(
        &mut self,
        shift: BarrelShiftOpCode,
        val: i32,
        amount: u32,
        carry_in: bool,
        immediate: bool,
    ) -> (r: i32)
        ensures
            u32_of(r) == barrel_shift(shift, u32_of(val), amount, carry_in, immediate).0,
            final(self).carry_out == barrel_shift(
                shift,
                u32_of(val),
                amount,
                carry_in,
                immediate,
            ).1,
            shift == BarrelShiftOpCode::LSL && amount == 0 ==> r == val && final(self).carry_out
                == carry_in,
    {
        let uval: u32 = to_u32(val);
        let result: u32 = match shift {
            BarrelShiftOpCode::LSL => {
                if amount == 0 {
                    self.carry_out = carry_in;
                    uval
                } else if amount < 32 {
                    self.carry_out = get_bit(uval, (32 - amount) as usize);
                    uval << amount
                } else if amount == 32 {
                    self.carry_out = get_bit(uval, 0);
                    0
                } else {
                    self.carry_out = false;
                    0
                }
            },
            BarrelShiftOpCode::LSR => {
                if amount == 0 && !immediate {
                    self.carry_out = carry_in;
                    uval
                } else if amount == 0 || amount == 32 {
                    self.carry_out = get_bit(uval, 31);
                    0
                } else if amount < 32 {
                    self.carry_out = get_bit(uval, (amount - 1) as usize);
                    uval >> amount
                } else {
                    self.carry_out = false;
                    0
                }
            },
            BarrelShiftOpCode::ASR => {
                if amount == 0 && !immediate {
                    self.carry_out = carry_in;
                    uval
                } else if amount == 0 || amount >= 32 {
                    let bit31 = get_bit(uval, 31);
                    self.carry_out = bit31;
                    if bit31 {
                        0xffff_ffff
                    } else {
                        0
                    }
                } else {
                    self.carry_out = get_bit(uval, (amount - 1) as usize);
                    to_u32(val >> amount)
                }
            },
            BarrelShiftOpCode::ROR => {
                if amount == 0 && !immediate {
                    self.carry_out = carry_in;
                    uval
                } else if amount == 0 {
                    /* RRX */
                    let old_c: u32 = if carry_in {
                        0x8000_0000
                    } else {
                        0
                    };
                    self.carry_out = get_bit(uval, 0);
                    (uval >> 1u32) | old_c
                } else {
                    let rotated = ror(uval, amount);
                    self.carry_out = get_bit(rotated, 31);
                    rotated
                }
            },
        };
        to_i32(result)
    }
}

/// The low 32 bits of an integer.
pub open spec fn low_word(x: int) -> u32 {
    (x % 0x1_0000_0000) as u32
}

/// `a + b + carry`: the 32-bit sum, the carry out of bit 31, and whether the
/// sum of the operands read as signed numbers leaves the signed range.
pub open spec fn add_with_carry(a: u32, b: u32, carry: bool) -> (u32, bool, bool) {
    let c: int = if carry {
        1
    } else {
        0
    };
    let signed = i32_of(a) + i32_of(b) + c;
    (low_word(a + b + c), a + b + c > 0xffff_ffff, signed < -0x8000_0000 || signed > 0x7fff_ffff)
}

/// `a - b - (1 - carry)`: the 32-bit difference, the carry flag (set when no
/// borrow occurs) and whether the difference of the operands read as signed
/// numbers leaves the signed range.
pub open spec fn sub_with_carry(a: u32, b: u32, carry: bool) -> (u32, bool, bool) {
    let borrow: int = if carry {
        0
    } else {
        1
    };
    let signed = i32_of(a) - i32_of(b) - borrow;
    (low_word(a - b - borrow), a >= b + borrow, signed < -0x8000_0000 || signed > 0x7fff_ffff)
}

/// The result of an ALU operation together with the carry and overflow that
/// an arithmetic operation produces. For a logical operation the two flags
/// are `carry` and `overflow` as they came in.
pub open spec fn alu_result(
    opcode: AluOpCode,
    op1: u32,
    op2: u32,
    c_flag: bool,
    carry: bool,
    overflow: bool,
) -> (u32, bool, bool) {
    match opcode {
        AluOpCode::AND | AluOpCode::TST => (op1 & op2, carry, overflow),
        AluOpCode::EOR | AluOpCode::TEQ => (op1 ^ op2, carry, overflow),
        AluOpCode::SUB | AluOpCode::CMP => sub_with_carry(op1, op2, true),
        AluOpCode::RSB => sub_with_carry(op2, op1, true),
        AluOpCode::ADD | AluOpCode::CMN => add_with_carry(op1, op2, false),
        AluOpCode::ADC => add_with_carry(op1, op2, c_flag),
        AluOpCode::SBC => sub_with_carry(op1, op2, c_flag),
        AluOpCode::RSC => sub_with_carry(op2, op1, c_flag),
        AluOpCode::ORR => (op1 | op2, carry, overflow),
        AluOpCode::MOV => (op2, carry, overflow),
        AluOpCode::BIC => (op1 & !op2, carry, overflow),
        AluOpCode::MVN => (!op2, carry, overflow),
    }
}

/// Adds with carry in, and reports carry out and signed overflow.
pub fn add_carry_flags(a: u32, b: u32, carry_in: bool) -> (r: (u32, bool, bool))
    ensures
        r == add_with_carry(a, b, carry_in),
{
    let c: u64 = if carry_in {
        1
    } else {
        0
    };
    let wide: u64 = a as u64 + b as u64 + c;
    let signed: i64 = to_i32(a) as i64 + to_i32(b) as i64 + c as i64;
    let res: u32 = if wide > 0xffff_ffff {
        (wide - 0x1_0000_0000) as u32
    } else {
        wide as u32
    };
    (res, wide > 0xffff_ffff, signed < -0x8000_0000 || signed > 0x7fff_ffff)
}

/// Subtracts with carry in (a clear carry borrows one more), and reports the
/// carry flag and signed overflow.
pub fn sub_carry_flags(a: u32, b: u32, carry_in: bool) -> (r: (u32, bool, bool))
    ensures
        r == sub_with_carry(a, b, carry_in),
{
    let borrow: i64 = if carry_in {
        0
    } else {
        1
    };
    let wide: i64 = a as i64 - b as i64 - borrow;
    let signed: i64 = to_i32(a) as i64 - to_i32(b) as i64 - borrow;
    let res: u32 = if wide < 0 {
        (wide + 0x1_0000_0000) as u32
    } else {
        wide as u32
    };
    (res, wide >= 0, signed < -0x8000_0000 || signed > 0x7fff_ffff)
}

/// Computes an ALU operation on its two operands. `c_flag` is the carry flag
/// that ADC, SBC and RSC consume; `carry` and `overflow` are what a logical
/// operation hands through.
pub fn alu_compute(
    opcode: AluOpCode,
    op1: u32,
    op2: u32,
    c_flag: bool,
    carry: bool,
    overflow: bool,
) -> (r: (u32, bool, bool))
    ensures
        r == alu_result(opcode, op1, op2, c_flag, carry, overflow),
{
    match opcode {
        AluOpCode::AND | AluOpCode::TST => (op1 & op2, carry, overflow),
        AluOpCode::EOR | AluOpCode::TEQ => (op1 ^ op2, carry, overflow),
        AluOpCode::SUB | AluOpCode::CMP => sub_carry_flags(op1, op2, true),
        AluOpCode::RSB => sub_carry_flags(op2, op1, true),
        AluOpCode::ADD | AluOpCode::CMN => add_carry_flags(op1, op2, false),
        AluOpCode::ADC => add_carry_flags(op1, op2, c_flag),
        AluOpCode::SBC => sub_carry_flags(op1, op2, c_flag),
        AluOpCode::RSC => sub_carry_flags(op2, op1, c_flag),
        AluOpCode::ORR => (op1 | op2, carry, overflow),
        AluOpCode::MOV => (op2, carry, overflow),
        AluOpCode::BIC => (op1 & !op2, carry, overflow),
        AluOpCode::MVN => (!op2, carry, overflow),
    }
}

impl Core {
    /// The value and the shifter carry of a shifted register operand, or
    /// `None` where the shift amount would come from R15.
    ///
    /// An amount given in the instruction uses the immediate forms of the
    /// shifts. An amount given by a register is the low byte of that
    /// register, and R15 as the shifted register then reads one word further
    /// ahead.
    pub open spec fn spec_register_shift(self, shift: ShiftedRegister) -> Option<(u32, bool)> {
        let val = self.reg(shift.reg as int);
        match shift.shift_by {
            ShiftRegisterBy::ByAmount(amount) => Some(
                barrel_shift(shift.bs_op, val, amount, self.cpsr.c, true),
            ),
            ShiftRegisterBy::ByRegister(rs) => {
                if rs == REG_PC {
                    None
                } else {
                    Some(
                        barrel_shift(
                            shift.bs_op,
                            if shift.reg == REG_PC {
                                val.wrapping_add(4)
                            } else {
                                val
                            },
                            self.reg(rs as int) & 0xff,
                            self.cpsr.c,
                            false,
                        ),
                    )
                }
            },
        }
    }

    /// The value of an operand: an immediate as it stands, a rotated
    /// immediate rotated, a shifted register shifted and then negated where
    /// the operand is marked as subtracted.
    pub open spec fn spec_barrel_shifted_value(self, sval: BarrelShifterValue) -> Option<u32> {
        match sval {
            BarrelShifterValue::ImmediateValue(offset) => Some(u32_of(offset)),
            BarrelShifterValue::RotatedImmediate(immediate, rotate) => Some(
                rotate_right(immediate, rotate),
            ),
            BarrelShifterValue::ShiftedRegister(shift) => match self.spec_register_shift(shift) {
                Some((abs, _)) => Some(
                    if shift.added == Some(false) {
                        0u32.wrapping_sub(abs)
                    } else {
                        abs
                    },
                ),
                None => None,
            },
        }
    }

    /// The status register after a flag-setting ALU operation: N and Z from
    /// the result; C from the operation if it is arithmetic, from the
    /// shifter if it is logical; V from the operation if it is arithmetic,
    /// unchanged if it is logical.
    pub open spec fn spec_alu_flags(self, opcode: AluOpCode, op1: u32, op2: u32) -> RegPSR {
        let (result, carry, overflow) = alu_result(
            opcode,
            op1,
            op2,
            self.cpsr.c,
            self.bs.carry_out,
            self.cpsr.v,
        );
        RegPSR { n: result >= 0x8000_0000, z: result == 0, c: carry, v: overflow, ..self.cpsr }
    }

    pub fn register_shift(&mut self, shift: ShiftedRegister) -> (r: CpuResult<i32>)
        requires
            shift.valid(),
        ensures
            match r {
                Ok(v) => old(self).spec_register_shift(shift) == Some(
                    (u32_of(v), final(self).bs.carry_out),
                ),
                Err(e) => e == CpuError::IllegalInstruction && old(self).spec_register_shift(shift)
                    is None && final(self).bs == old(self).bs,
            },
            *final(self) == (Core { bs: final(self).bs, ..*old(self) }),
    {
        let mut val: u32 = self.get_reg(shift.reg);
        let carry = self.cpsr.c;
        match shift.shift_by {
            ShiftRegisterBy::ByAmount(amount) => {
                let result = self.bs.barrel_shift_op(shift.bs_op, to_i32(val), amount, carry, true);
                Ok(result)
            },
            ShiftRegisterBy::ByRegister(rs) => {
                if shift.reg == REG_PC {
                    val = val.wrapping_add(4);  // PC prefetching
                }
                if rs != REG_PC {
                    let amount = self.get_reg(rs) & 0xff;
                    let result = self.bs.barrel_shift_op(
                        shift.bs_op,
                        to_i32(val),
                        amount,
                        carry,
                        false,
                    );
                    Ok(result)
                } else {
                    Err(CpuError::IllegalInstruction)
                }
            },
        }
    }

    pub fn get_barrel_shifted_value(&mut self, sval: BarrelShifterValue) -> (r: CpuResult<i32>)
        requires
            sval.valid(),
        ensures
            match r {
                Ok(v) => old(self).spec_barrel_shifted_value(sval) == Some(u32_of(v)),
                Err(e) => e == CpuError::IllegalInstruction && old(self).spec_barrel_shifted_value(
                    sval,
                ) is None,
            },
            *final(self) == (Core { bs: final(self).bs, ..*old(self) }),
            match sval {
                BarrelShifterValue::ShiftedRegister(shift) => match old(self).spec_register_shift(
                    shift,
                ) {
                    Some((_, carry)) => final(self).bs.carry_out == carry,
                    None => final(self).bs == old(self).bs,
                },
                _ => final(self).bs == old(self).bs,
            },
    {
        match sval {
            BarrelShifterValue::ImmediateValue(offset) => Ok(offset),
            BarrelShifterValue::RotatedImmediate(immediate, rotate) => Ok(
                to_i32(ror(immediate, rotate)),
            ),
            BarrelShifterValue::ShiftedRegister(shifted_reg) => {
                let added = match shifted_reg.added {
                    Some(a) => a,
                    None => true,
                };
                match self.register_shift(shifted_reg) {
                    Ok(abs) => {
                        if added {
                            Ok(abs)
                        } else {
                            Ok(to_i32(0u32.wrapping_sub(to_u32(abs))))
                        }
                    },
                    Err(e) => Err(e),
                }
            },
        }
    }

    /// `a - b` with the flags of a subtraction: carry set when no borrow
    /// occurs, overflow set when the signed difference leaves the range.
    pub fn alu_sub_flags(a: i32, b: i32, carry: &mut bool, overflow: &mut bool) -> (r: i32)
        ensures
            (u32_of(r), *final(carry), *final(overflow)) == sub_with_carry(
                u32_of(a),
                u32_of(b),
                true,
            ),
    {
        let (res, c, v) = sub_carry_flags(to_u32(a), to_u32(b), true);
        *carry = c;
        *overflow = v;
        to_i32(res)
    }

    /// `a + b` with the flags of an addition: carry set when the unsigned sum
    /// passes 32 bits, overflow set when the signed sum leaves the range.
    pub fn alu_add_flags(a: i32, b: i32, carry: &mut bool, overflow: &mut bool) -> (r: i32)
        ensures
            (u32_of(r), *final(carry), *final(overflow)) == add_with_carry(
                u32_of(a),
                u32_of(b),
                false,
            ),
    {
        let (res, c, v) = add_carry_flags(to_u32(a), to_u32(b), false);
        *carry = c;
        *overflow = v;
        to_i32(res)
    }

    /// The result of an ALU operation, computed without touching any flag.
    pub fn alu(&mut self, opcode: AluOpCode, op1: i32, op2: i32) -> (r: i32)
        ensures
            u32_of(r) == alu_result(
                opcode,
                u32_of(op1),
                u32_of(op2),
                old(self).cpsr.c,
                old(self).bs.carry_out,
                old(self).cpsr.v,
            ).0,
            *final(self) == *old(self),
    {
        let (res, _, _) = alu_compute(
            opcode,
            to_u32(op1),
            to_u32(op2),
            self.cpsr.c,
            self.bs.carry_out,
            self.cpsr.v,
        );
        to_i32(res)
    }

    /// Performs an ALU operation and sets the flags from it. Returns the
    /// result, or `None` for the operations that only compare.
    pub fn alu_flags(&mut self, opcode: AluOpCode, op1: i32, op2: i32) -> (r: Option<i32>)
        ensures
            *final(self) == (Core {
                cpsr: old(self).spec_alu_flags(opcode, u32_of(op1), u32_of(op2)),
                ..*old(self)
            }),
            opcode.spec_is_setting_flags() <==> r is None,
            r matches Some(v) ==> u32_of(v) == alu_result(
                opcode,
                u32_of(op1),
                u32_of(op2),
                old(self).cpsr.c,
                old(self).bs.carry_out,
                old(self).cpsr.v,
            ).0,
    {
        let (result, carry, overflow) = alu_compute(
            opcode,
            to_u32(op1),
            to_u32(op2),
            self.cpsr.c,
            self.bs.carry_out,
            self.cpsr.v,
        );
        self.cpsr.n = result >= 0x8000_0000;
        self.cpsr.z = result == 0;
        self.cpsr.c = carry;
        self.cpsr.v = overflow;
        if opcode.is_setting_flags() {
            None
        } else {
            Some(to_i32(result))
        }
    }
}


} // verus!
