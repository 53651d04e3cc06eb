use rustboyadvance_core::arm7tdmi::alu::{
    AluOpCode, BarrelShiftOpCode, BarrelShifterValue, ShiftRegisterBy, ShiftedRegister,
};
use rustboyadvance_core::arm7tdmi::arm::lut::{
    arm_insn_hash, ArmInstructionHandler, ArmInstructionInfo, ArmLut,
};
use rustboyadvance_core::arm7tdmi::arm::{
    ArmCond, ArmDecodeError, ArmDecodeErrorKind, ArmFormat, ArmHalfwordTransferType,
    ArmInstruction,
};

#[test]
fn decode_branch_link_backwards() {
    // 0x20:   bl 0x10
    let decoded = ArmInstruction::decode(0xebff_fffa, 0x20);
    assert_eq!(decoded.fmt, ArmFormat::BranchLink);
    assert_eq!(decoded.link_flag(), true);
    assert_eq!(decoded.branch_offset(), -24);
    assert_eq!(decoded.branch_offset() as u32, 0xffff_ffe8);
    assert_eq!((decoded.pc as i32).wrapping_add(decoded.branch_offset()) + 8, 0x10);
}

#[test]
fn decode_branch_forwards() {
    // 0x20:   b 0x30
    let decoded = ArmInstruction::decode(0xea00_0002, 0x20);
    assert_eq!(decoded.fmt, ArmFormat::BranchLink);
    assert_eq!(decoded.link_flag(), false);
    assert_eq!(decoded.branch_offset(), 8);
    assert_eq!((decoded.pc as i32).wrapping_add(decoded.branch_offset()) + 8, 0x30);
}

#[test]
fn decode_branch_offset_extremes() {
    assert_eq!(ArmInstruction::decode(0xea7f_ffff, 0).branch_offset(), 0x01ff_fffc);
    assert_eq!(ArmInstruction::decode(0xea80_0000, 0).branch_offset(), -0x0200_0000);
    assert_eq!(ArmInstruction::decode(0xeaff_ffff, 0).branch_offset(), -4);
    assert_eq!(ArmInstruction::decode(0xea00_0000, 0).branch_offset(), 0);
}

#[test]
fn decode_branch_exchange() {
    let decoded = ArmInstruction::decode(0x012f_ff1e, 0);
    assert_eq!(decoded.fmt, ArmFormat::BranchExchange);
    assert_eq!(decoded.rn(), 14);
    assert_eq!(decoded.cond(), Ok(ArmCond::EQ));
}

#[test]
fn decode_swi() {
    // swi #0x1337
    let decoded = ArmInstruction::decode(0xef00_1337, 0);
    assert_eq!(decoded.fmt, ArmFormat::SoftwareInterrupt);
    assert_eq!(decoded.swi_comment(), 0x1337);
    assert_eq!(decoded.get_raw(), 0xef00_1337);
}

#[test]
fn decode_ldr_pre_index() {
    // ldreq r2, [r5, -r6, lsl #5]
    let decoded = ArmInstruction::decode(0x0715_2286, 0);
    assert_eq!(decoded.fmt, ArmFormat::SingleDataTransfer);
    assert_eq!(decoded.cond(), Ok(ArmCond::EQ));
    assert_eq!(decoded.load_flag(), true);
    assert_eq!(decoded.pre_index_flag(), true);
    assert_eq!(decoded.write_back_flag(), false);
    assert_eq!(decoded.add_offset_flag(), false);
    assert_eq!(decoded.transfer_size(), 4);
    assert_eq!(decoded.rd(), 2);
    assert_eq!(decoded.rn(), 5);
    assert_eq!(
        decoded.ldr_str_offset(),
        BarrelShifterValue::ShiftedRegister(ShiftedRegister {
            reg: 6,
            shift_by: ShiftRegisterBy::ByAmount(5),
            bs_op: BarrelShiftOpCode::LSL,
            added: Some(false)
        })
    );
}

#[test]
fn decode_str_post_index() {
    // strteq r2, [r4], -r7, asr #8
    let decoded = ArmInstruction::decode(0x0624_2447, 0);
    assert_eq!(decoded.fmt, ArmFormat::SingleDataTransfer);
    assert_eq!(decoded.cond(), Ok(ArmCond::EQ));
    assert_eq!(decoded.load_flag(), false);
    assert_eq!(decoded.pre_index_flag(), false);
    assert_eq!(decoded.write_back_flag(), true);
    assert_eq!(decoded.rd(), 2);
    assert_eq!(decoded.rn(), 4);
    assert_eq!(
        decoded.ldr_str_offset(),
        BarrelShifterValue::ShiftedRegister(ShiftedRegister {
            reg: 7,
            shift_by: ShiftRegisterBy::ByAmount(8),
            bs_op: BarrelShiftOpCode::ASR,
            added: Some(false)
        })
    );
}

#[test]
fn decode_str_pre_index() {
    // str r4, [sp, 0x10]
    let decoded = ArmInstruction::decode(0xe58d_4010, 0);
    assert_eq!(decoded.fmt, ArmFormat::SingleDataTransfer);
    assert_eq!(decoded.cond(), Ok(ArmCond::AL));
    assert_eq!(decoded.rn(), 13);
    assert_eq!(decoded.rd(), 4);
    assert_eq!(decoded.ldr_str_offset(), BarrelShifterValue::ImmediateValue(0x10));
    // str r4, [sp, -0x10]
    let down = ArmInstruction::decode(0xe50d_4010, 0);
    assert_eq!(down.ldr_str_offset(), BarrelShifterValue::ImmediateValue(-0x10));
    // strb
    assert_eq!(ArmInstruction::decode(0xe5cd_4010, 0).transfer_size(), 1);
}

#[test]
fn decode_every_format() {
    let cases: [(u32, ArmFormat); 15] = [
        (0xe12f_ff1e, ArmFormat::BranchExchange),
        (0xe102_0091, ArmFormat::SingleDataSwap),
        (0xe001_0392, ArmFormat::Multiply),
        (0xe082_1493, ArmFormat::MultiplyLong),
        (0xe10f_0000, ArmFormat::MoveFromStatus),
        (0xe129_f000, ArmFormat::MoveToStatus),
        (0xe128_f000, ArmFormat::MoveToFlags),
        (0xe328_f20f, ArmFormat::MoveToFlags),
        (0xe591_0000, ArmFormat::SingleDataTransfer),
        (0xe191_00b2, ArmFormat::HalfwordDataTransferRegOffset),
        (0xe1d1_00b4, ArmFormat::HalfwordDataTransferImmediateOffset),
        (0xe8b0_0006, ArmFormat::BlockDataTransfer),
        (0xeb00_0000, ArmFormat::BranchLink),
        (0xef00_0000, ArmFormat::SoftwareInterrupt),
        (0xe3a0_0001, ArmFormat::DataProcessing),
    ];
    for (word, fmt) in cases.iter() {
        assert_eq!(ArmInstruction::decode(*word, 0x100).fmt, *fmt, "{:08x}", word);
        assert_eq!(ArmFormat::from(*word), *fmt, "{:08x}", word);
    }
    assert_eq!(ArmInstruction::decode(0xee00_0000, 0).fmt, ArmFormat::Undefined);
}

#[test]
fn decode_ignores_condition_and_is_repeatable() {
    for cond in 0..16u32 {
        let word = (cond << 28) | 0x0a00_0010;
        assert_eq!(ArmInstruction::decode(word, 0).fmt, ArmFormat::BranchLink);
    }
    let first = ArmInstruction::decode(0xe082_1493, 0x0800_0000);
    let second = ArmInstruction::decode(0xe082_1493, 0x0300_0000);
    assert_eq!(first.fmt, second.fmt);
    assert_eq!(first.raw, second.raw);
}

#[test]
fn decode_from_bytes_is_little_endian() {
    let bytes = [0xfa, 0xff, 0xff, 0xeb, 0x00];
    let decoded = ArmInstruction::decode_from_bytes(&bytes, 0x20);
    assert_eq!(decoded, ArmInstruction::decode(0xebff_fffa, 0x20));
    assert_eq!(decoded, ArmInstruction::new(0xebff_fffa, 0x20, ArmFormat::BranchLink));
}

#[test]
fn register_fields_by_format() {
    // mla r1, r2, r3, r4
    let mla = ArmInstruction::decode(0xe021_4392, 0);
    assert_eq!(mla.fmt, ArmFormat::Multiply);
    assert_eq!(mla.rd(), 1);
    assert_eq!(mla.rn(), 4);
    assert_eq!(mla.rs(), 3);
    assert_eq!(mla.rm(), 2);
    assert_eq!(mla.accumulate_flag(), true);
    assert_eq!(mla.set_cond_flag(), false);
    // umull r1, r2, r3, r4
    let umull = ArmInstruction::decode(0xe082_1493, 0);
    assert_eq!(umull.rd_lo(), 1);
    assert_eq!(umull.rd_hi(), 2);
    assert_eq!(umull.rm(), 3);
    assert_eq!(umull.rs(), 4);
    assert_eq!(umull.rn(), 4);
    assert_eq!(umull.u_flag(), false);
    // smulls
    assert_eq!(ArmInstruction::decode(0xe0d2_1493, 0).u_flag(), true);
    assert_eq!(ArmInstruction::decode(0xe0d2_1493, 0).set_cond_flag(), true);
    // add r0, r1, r2
    let add = ArmInstruction::decode(0xe081_0002, 0);
    assert_eq!(add.rn(), 1);
    assert_eq!(add.rd(), 0);
    assert_eq!(add.rm(), 2);
    assert_eq!(add.opcode(), AluOpCode::ADD);
}

#[test]
fn opcode_field_names_all_sixteen_operations() {
    let ops = [
        AluOpCode::AND,
        AluOpCode::EOR,
        AluOpCode::SUB,
        AluOpCode::RSB,
        AluOpCode::ADD,
        AluOpCode::ADC,
        AluOpCode::SBC,
        AluOpCode::RSC,
        AluOpCode::TST,
        AluOpCode::TEQ,
        AluOpCode::CMP,
        AluOpCode::CMN,
        AluOpCode::ORR,
        AluOpCode::MOV,
        AluOpCode::BIC,
        AluOpCode::MVN,
    ];
    for (code, op) in ops.iter().enumerate() {
        let word = 0xe000_0000 | ((code as u32) << 21);
        assert_eq!(ArmInstruction::decode(word, 0).opcode(), *op);
        assert_eq!(AluOpCode::from_code(code as u32), *op);
    }
}

#[test]
fn undefined_condition_code_is_an_error() {
    let decoded = ArmInstruction::decode(0xf000_0000, 0x44);
    assert_eq!(
        decoded.cond(),
        Err(ArmDecodeError {
            kind: ArmDecodeErrorKind::UndefinedConditionCode(15),
            insn: 0xf000_0000,
            addr: 0x44
        })
    );
    let conds = [
        ArmCond::EQ,
        ArmCond::NE,
        ArmCond::HS,
        ArmCond::LO,
        ArmCond::MI,
        ArmCond::PL,
        ArmCond::VS,
        ArmCond::VC,
        ArmCond::HI,
        ArmCond::LS,
        ArmCond::GE,
        ArmCond::LT,
        ArmCond::GT,
        ArmCond::LE,
        ArmCond::AL,
    ];
    for (code, cond) in conds.iter().enumerate() {
        assert_eq!(ArmInstruction::decode((code as u32) << 28, 0).cond(), Ok(*cond));
    }
}

#[test]
fn halfword_transfer_type_and_its_error() {
    // ldrh, ldrsb, ldrsh r0, [r1, #4]
    assert_eq!(
        ArmInstruction::decode(0xe1d1_00b4, 0).halfword_data_transfer_type(),
        Ok(ArmHalfwordTransferType::UnsignedHalfwords)
    );
    assert_eq!(
        ArmInstruction::decode(0xe1d1_00d4, 0).halfword_data_transfer_type(),
        Ok(ArmHalfwordTransferType::SignedByte)
    );
    assert_eq!(
        ArmInstruction::decode(0xe1d1_00f4, 0).halfword_data_transfer_type(),
        Ok(ArmHalfwordTransferType::SignedHalfwords)
    );
    let bad = ArmInstruction::new(0xe1d1_0094, 8, ArmFormat::HalfwordDataTransferImmediateOffset);
    assert_eq!(
        bad.halfword_data_transfer_type(),
        Err(ArmDecodeError::new(ArmDecodeErrorKind::InvalidHSBits(0), 0xe1d1_0094, 8))
    );
}

#[test]
fn halfword_offsets() {
    // ldrh r0, [r1, #0x34]
    let imm = ArmInstruction::decode(0xe1d1_03b4, 0);
    assert_eq!(imm.ldr_str_hs_offset(), Ok(BarrelShifterValue::ImmediateValue(0x34)));
    // ldrh r0, [r1, #-0x34]
    let neg = ArmInstruction::decode(0xe151_03b4, 0);
    assert_eq!(neg.ldr_str_hs_offset(), Ok(BarrelShifterValue::ImmediateValue(-0x34)));
    // ldrh r0, [r1, r2]
    let reg = ArmInstruction::decode(0xe191_00b2, 0);
    assert_eq!(
        reg.ldr_str_hs_offset(),
        Ok(BarrelShifterValue::ShiftedRegister(ShiftedRegister {
            reg: 2,
            shift_by: ShiftRegisterBy::ByAmount(0),
            bs_op: BarrelShiftOpCode::LSL,
            added: Some(true)
        }))
    );
    let other = ArmInstruction::decode(0xe3a0_0001, 0x10);
    assert_eq!(
        other.ldr_str_hs_offset(),
        Err(other.make_decode_error(ArmDecodeErrorKind::DecodedPartDoesNotBelongToInstruction))
    );
    assert_eq!(
        other.make_decode_error(ArmDecodeErrorKind::DecodedPartDoesNotBelongToInstruction),
        ArmDecodeError {
            kind: ArmDecodeErrorKind::DecodedPartDoesNotBelongToInstruction,
            insn: 0xe3a0_0001,
            addr: 0x10
        }
    );
}

#[test]
fn operand2_forms() {
    // mov r0, #0xff000000  (0xff rotated right by 8)
    let imm = ArmInstruction::decode(0xe3a0_04ff, 0);
    assert_eq!(imm.operand2(), BarrelShifterValue::RotatedImmediate(0xff, 8));
    assert_eq!(imm.operand2().decode_rotated_immediate(), Some(0xff00_0000u32 as i32));
    // mov r0, r1, lsr #3
    let by_amount = ArmInstruction::decode(0xe1a0_01a1, 0);
    assert_eq!(
        by_amount.operand2(),
        BarrelShifterValue::ShiftedRegister(ShiftedRegister {
            reg: 1,
            shift_by: ShiftRegisterBy::ByAmount(3),
            bs_op: BarrelShiftOpCode::LSR,
            added: None
        })
    );
    assert_eq!(by_amount.operand2().decode_rotated_immediate(), None);
    // mov r0, r1, ror r2
    let by_reg = ArmInstruction::decode(0xe1a0_0271, 0);
    assert_eq!(
        by_reg.operand2(),
        BarrelShifterValue::ShiftedRegister(ShiftedRegister {
            reg: 1,
            shift_by: ShiftRegisterBy::ByRegister(2),
            bs_op: BarrelShiftOpCode::ROR,
            added: None
        })
    );
    assert_eq!(by_reg.get_bs_op(0x271), BarrelShiftOpCode::ROR);
    assert_eq!(by_reg.get_shift_reg_by(0x271), ShiftRegisterBy::ByRegister(2));
    assert_eq!(by_reg.get_bs_op(0x1a1), BarrelShiftOpCode::LSR);
    assert_eq!(by_reg.get_shift_reg_by(0xfc1), ShiftRegisterBy::ByAmount(31));
    assert_eq!(by_reg.get_bs_op(0x041), BarrelShiftOpCode::ASR);
    assert_eq!(by_reg.get_bs_op(0x001), BarrelShiftOpCode::LSL);
}

#[test]
fn block_transfer_fields() {
    // ldmdb r13!, {r0, r4, pc}^
    let decoded = ArmInstruction::decode(0xe97d_8011, 0);
    assert_eq!(decoded.fmt, ArmFormat::BlockDataTransfer);
    assert_eq!(decoded.register_list(), 0x8011);
    assert_eq!(decoded.rn(), 13);
    assert_eq!(decoded.pre_index_flag(), true);
    assert_eq!(decoded.add_offset_flag(), false);
    assert_eq!(decoded.psr_and_force_user_flag(), true);
    assert_eq!(decoded.write_back_flag(), true);
    assert_eq!(decoded.load_flag(), true);
    // mrs r0, spsr
    assert_eq!(ArmInstruction::decode(0xe14f_0000, 0).spsr_flag(), true);
    assert_eq!(ArmInstruction::decode(0xe10f_0000, 0).spsr_flag(), false);
}

#[test]
fn instruction_hash_folds_bits_27_to_20_and_7_to_4() {
    assert_eq!(arm_insn_hash(0xe12f_ff1e), 0x121);
    assert_eq!(arm_insn_hash(0xffff_ffff), 0xfff);
    assert_eq!(arm_insn_hash(0xf00f_ff0f), 0);
    assert_eq!(arm_insn_hash(0x0aa0_0050), 0xaa5);
}

#[test]
fn lookup_table_classifies_the_pattern_of_each_hash() {
    let lut = ArmLut::new();
    assert_eq!(lut.entries.len(), 4096);
    for i in 0..4096u32 {
        let pattern = ((i & 0xff0) << 16) | ((i & 0x00f) << 4);
        let fmt = ArmFormat::from(pattern);
        assert_eq!(
            lut.entries[i as usize],
            ArmInstructionInfo::new(fmt, ArmInstructionHandler::from(fmt))
        );
    }
    assert_eq!(lut.lookup(0xebff_fffa).fmt, ArmFormat::BranchLink);
    assert_eq!(lut.lookup(0xebff_fffa).handler_fn, ArmInstructionHandler::BranchLink);
    assert_eq!(lut.lookup(0xe3a0_0001).fmt, ArmFormat::DataProcessing);
    assert_eq!(lut.lookup(0xe8b0_0006).handler_fn, ArmInstructionHandler::BlockDataTransfer);
    assert_eq!(lut.lookup(0xef12_3456).fmt, ArmFormat::SoftwareInterrupt);
    assert_eq!(lut.lookup(0xe001_0392).fmt, ArmFormat::Multiply);
    assert_eq!(lut.lookup(0xe082_1493).fmt, ArmFormat::MultiplyLong);
    assert_eq!(lut.lookup(0xe102_0091).fmt, ArmFormat::SingleDataSwap);
    assert_eq!(lut.lookup(0xe1d1_00b4).handler_fn, ArmInstructionHandler::HalfwordDataTransfer);
    assert_eq!(lut.lookup(0xe191_00b2).handler_fn, ArmInstructionHandler::HalfwordDataTransfer);
    // the entry depends on bits 27..20 and 7..4 of the word alone
    assert_eq!(lut.lookup(0xe12f_ff1e), lut.lookup(0x0120_0010));
    assert_eq!(lut.lookup(0xe12f_ff1e).fmt, ArmFormat::from(0x0120_0010));
}

#[test]
fn handler_of_each_format() {
    assert_eq!(
        ArmInstructionHandler::from(ArmFormat::HalfwordDataTransferRegOffset),
        ArmInstructionHandler::HalfwordDataTransfer
    );
    assert_eq!(
        ArmInstructionHandler::from(ArmFormat::HalfwordDataTransferImmediateOffset),
        ArmInstructionHandler::HalfwordDataTransfer
    );
    assert_eq!(
        ArmInstructionHandler::from(ArmFormat::BranchExchange),
        ArmInstructionHandler::BranchExchange
    );
    assert_eq!(ArmInstructionHandler::from(ArmFormat::Undefined), ArmInstructionHandler::Undefined);
    assert_eq!(
        ArmInstructionHandler::from(ArmFormat::MoveToFlags),
        ArmInstructionHandler::MoveToFlags
    );
}
