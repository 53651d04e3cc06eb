//! The dispatch table: from a 12-bit digest of the instruction word to its
//! format and handler.
use crate::arm7tdmi::arm::{arm_format, lemma_format_ignores_condition, ArmFormat};
use vstd::prelude::*;
use vstd::std_specs::convert::FromSpecImpl;

verus! {

/// The executors. Both halfword transfer formats share one.
#[derive(Debug, Clone, Copy, PartialEq, Eq, Structural)]
pub enum ArmInstructionHandler {
    BranchExchange,
    BranchLink,
    DataProcessing,
    SoftwareInterrupt,
    SingleDataTransfer,
    HalfwordDataTransfer,
    BlockDataTransfer,
    MoveFromStatus,
    MoveToStatus,
    MoveToFlags,
    Multiply,
    MultiplyLong,
    SingleDataSwap,
    Undefined,
}

/// The executor of each format.
pub open spec fn handler_of(fmt: ArmFormat) -> ArmInstructionHandler {
    match fmt {
        ArmFormat::BranchExchange => ArmInstructionHandler::BranchExchange,
        ArmFormat::BranchLink => ArmInstructionHandler::BranchLink,
        ArmFormat::DataProcessing => ArmInstructionHandler::DataProcessing,
        ArmFormat::SoftwareInterrupt => ArmInstructionHandler::SoftwareInterrupt,
        ArmFormat::SingleDataTransfer => ArmInstructionHandler::SingleDataTransfer,
        ArmFormat::HalfwordDataTransferImmediateOffset => ArmInstructionHandler::HalfwordDataTransfer,
        ArmFormat::HalfwordDataTransferRegOffset => ArmInstructionHandler::HalfwordDataTransfer,
        ArmFormat::BlockDataTransfer => ArmInstructionHandler::BlockDataTransfer,
        ArmFormat::MoveFromStatus => ArmInstructionHandler::MoveFromStatus,
        ArmFormat::MoveToStatus => ArmInstructionHandler::MoveToStatus,
        ArmFormat::MoveToFlags => ArmInstructionHandler::MoveToFlags,
        ArmFormat::Multiply => ArmInstructionHandler::Multiply,
        ArmFormat::MultiplyLong => ArmInstructionHandler::MultiplyLong,
        ArmFormat::SingleDataSwap => ArmInstructionHandler::SingleDataSwap,
        ArmFormat::Undefined => ArmInstructionHandler::Undefined,
    }
}

impl From<ArmFormat> for ArmInstructionHandler {
    fn from(arm_fmt: ArmFormat) -> (r: ArmInstructionHandler) {
        match arm_fmt {
            ArmFormat::BranchExchange => ArmInstructionHandler::BranchExchange,
            ArmFormat::BranchLink => ArmInstructionHandler::BranchLink,
            ArmFormat::DataProcessing => ArmInstructionHandler::DataProcessing,
            ArmFormat::SoftwareInterrupt => ArmInstructionHandler::SoftwareInterrupt,
            ArmFormat::SingleDataTransfer => ArmInstructionHandler::SingleDataTransfer,
            ArmFormat::HalfwordDataTransferImmediateOffset => {
                ArmInstructionHandler::HalfwordDataTransfer
            },
            ArmFormat::HalfwordDataTransferRegOffset => ArmInstructionHandler::HalfwordDataTransfer,
            ArmFormat::BlockDataTransfer => ArmInstructionHandler::BlockDataTransfer,
            ArmFormat::MoveFromStatus => ArmInstructionHandler::MoveFromStatus,
            ArmFormat::MoveToStatus => ArmInstructionHandler::MoveToStatus,
            ArmFormat::MoveToFlags => ArmInstructionHandler::MoveToFlags,
            ArmFormat::Multiply => ArmInstructionHandler::Multiply,
            ArmFormat::MultiplyLong => ArmInstructionHandler::MultiplyLong,
            ArmFormat::SingleDataSwap => ArmInstructionHandler::SingleDataSwap,
            ArmFormat::Undefined => ArmInstructionHandler::Undefined,
        }
    }
}

impl FromSpecImpl<ArmFormat> for ArmInstructionHandler {
    open spec fn obeys_from_spec() -> bool {
        true
    }

    open spec fn from_spec(arm_fmt: ArmFormat) -> ArmInstructionHandler {
        handler_of(arm_fmt)
    }
}

#[derive(Debug, Clone, Copy, PartialEq, Eq, Structural)]
pub struct ArmInstructionInfo {
    pub fmt: ArmFormat,
    pub handler_fn: ArmInstructionHandler,
}

impl ArmInstructionInfo {
    pub fn new(fmt: ArmFormat, handler_fn: ArmInstructionHandler) -> (r: ArmInstructionInfo)
        ensures
            r == (ArmInstructionInfo { fmt, handler_fn }),
    {
        ArmInstructionInfo { fmt, handler_fn }
    }
}

/// The digest of an instruction word: bits 27..20 above bits 7..4.
pub open spec fn spec_arm_insn_hash(insn: u32) -> usize {
    (((insn >> 16u32) & 0xff0) | ((insn >> 4u32) & 0x00f)) as usize
}

/// The instruction word that has the digest `hash` and is zero in every bit
/// that the digest leaves out.
pub open spec fn arm_insn_pattern(hash: u32) -> u32 {
    ((hash & 0xff0) << 16u32) | ((hash & 0x00f) << 4u32)
}

/// What the table holds under `hash`: format and handler of the pattern of
/// `hash`.
pub open spec fn arm_lut_entry(hash: u32) -> ArmInstructionInfo {
    ArmInstructionInfo {
        fmt: arm_format(arm_insn_pattern(hash)),
        handler_fn: handler_of(arm_format(arm_insn_pattern(hash))),
    }
}

proof fn lemma_hash(insn: u32)
    by (bit_vector)
    ensures
        (((insn >> 16u32) & 0xff0) | ((insn >> 4u32) & 0x00f)) < 4096,
        ((((insn >> 16u32) & 0xff0) | ((insn >> 4u32) & 0x00f)) & 0xff0) << 16u32 | ((((insn
            >> 16u32) & 0xff0) | ((insn >> 4u32) & 0x00f)) & 0x00f) << 4u32 == insn & 0x0ff0_00f0,
        insn & 0x000f_ff0f == 0 ==> insn & 0x0fff_ffff == insn & 0x0ff0_00f0,
{
}

pub fn arm_insn_hash(insn: u32) -> (r: usize)
    ensures
        r == spec_arm_insn_hash(insn),
        r < 4096,
        arm_insn_pattern(r as u32) == insn & 0x0ff0_00f0,
{
    proof {
        lemma_hash(insn);
    }
    (((insn >> 16u32) & 0xff0) | ((insn >> 4u32) & 0x00f)) as usize
}

/// The table of 4096 entries, one for each digest.
pub struct ArmLut {
    pub entries: Vec<ArmInstructionInfo>,
}

impl ArmLut {
    pub open spec fn wf(self) -> bool {
        &&& self.entries@.len() == 4096
        &&& forall|i: int| 0 <= i < 4096 ==> #[trigger] self.entries@[i] == arm_lut_entry(i as u32)
    }

    /// Builds the table: entry `i` classifies the pattern of `i`.
    pub fn new() -> (r: ArmLut)
        ensures
            r.wf(),
    {
        let mut entries: Vec<ArmInstructionInfo> = Vec::with_capacity(4096);
        let mut i: u32 = 0;
        while i < 4096
            invariant
                i <= 4096,
                entries@.len() == i,
                forall|j: int| 0 <= j < i ==> #[trigger] entries@[j] == arm_lut_entry(j as u32),
            decreases 4096 - i,
        {
            let x: u32 = ((i & 0xff0) << 16u32) | ((i & 0x00f) << 4u32);
            let fmt = ArmFormat::from(x);
            let info = ArmInstructionInfo::new(fmt, ArmInstructionHandler::from(fmt));
            entries.push(info);
            i += 1;
        }
        ArmLut { entries }
    }

    /// The entry for the instruction word `insn`: format and handler of the
    /// word that keeps bits 27..20 and 7..4 of `insn` and is zero elsewhere.
    pub fn lookup(&self, insn: u32) -> (r: ArmInstructionInfo)
        requires
            self.wf(),
        ensures
            r == arm_lut_entry(spec_arm_insn_hash(insn) as u32),
            r.fmt == arm_format(insn & 0x0ff0_00f0),
            r.handler_fn == handler_of(r.fmt),
    {
        let hash = arm_insn_hash(insn);
        self.entries[hash]
    }
}

/// The table holds for a word the format of the word with every bit that
/// the digest leaves out cleared.
pub proof fn lemma_lookup_format(insn: u32)
    ensures
        arm_lut_entry(spec_arm_insn_hash(insn) as u32).fmt == arm_format(insn & 0x0ff0_00f0),
{
    lemma_hash(insn);
}

/// The table and the decoder give the same format to every word that is zero
/// outside the condition field and the bits of the digest.
pub proof fn lemma_lookup_agrees_with_decode(insn: u32)
    requires
        insn & 0x000f_ff0f == 0,
    ensures
        arm_lut_entry(spec_arm_insn_hash(insn) as u32).fmt == arm_format(insn),
{
    lemma_hash(insn);
    lemma_format_ignores_condition(insn);
}

} // verus!
