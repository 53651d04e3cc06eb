//! Exceptions: their vectors, the modes they enter and what entry does to
//! the processor state.
use crate::arm7tdmi::cpu::Core;
use crate::arm7tdmi::psr::{lemma_mode_bits, valid_mode_bits, CpuMode, CpuState, RegPSR};
use vstd::array::spec_array_update;
use vstd::prelude::*;

verus! {

#[derive(Debug, Clone, Copy, PartialEq, Eq, Structural)]
pub enum Exception {
    Reset,
    UndefinedInstruction,
    SoftwareInterrupt,
    PrefatchAbort,
    DataAbort,
    Reserved,
    Irq,
    Fiq,
}

impl Exception {
    /// The address at which execution goes on.
    pub open spec fn spec_vector(self) -> u32 {
        match self {
            Exception::Reset => 0x00,
            Exception::UndefinedInstruction => 0x04,
            Exception::SoftwareInterrupt => 0x08,
            Exception::PrefatchAbort => 0x0c,
            Exception::DataAbort => 0x10,
            Exception::Reserved => 0x14,
            Exception::Irq => 0x18,
            Exception::Fiq => 0x1c,
        }
    }

    /// The mode that the exception enters. The reserved vector, which no
    /// event leads to, is given Supervisor mode.
    pub open spec fn spec_mode(self) -> CpuMode {
        match self {
            Exception::Reset => CpuMode::Supervisor,
            Exception::UndefinedInstruction => CpuMode::Undefined,
            Exception::SoftwareInterrupt => CpuMode::Supervisor,
            Exception::PrefatchAbort => CpuMode::Abort,
            Exception::DataAbort => CpuMode::Abort,
            Exception::Reserved => CpuMode::Supervisor,
            Exception::Irq => CpuMode::Irq,
            Exception::Fiq => CpuMode::Fiq,
        }
    }

    /// Whether entry masks fast interrupts too.
    pub open spec fn spec_masks_fiq(self) -> bool {
        self == Exception::Reset || self == Exception::Fiq
    }

    pub fn vector(&self) -> (r: u32)
        ensures
            r == self.spec_vector(),
            r % 4 == 0,
    {
        match self {
            Exception::Reset => 0x00,
            Exception::UndefinedInstruction => 0x04,
            Exception::SoftwareInterrupt => 0x08,
            Exception::PrefatchAbort => 0x0c,
            Exception::DataAbort => 0x10,
            Exception::Reserved => 0x14,
            Exception::Irq => 0x18,
            Exception::Fiq => 0x1c,
        }
    }

    pub fn mode(&self) -> (r: CpuMode)
        ensures
            r == self.spec_mode(),
    {
        match self {
            Exception::Reset => CpuMode::Supervisor,
            Exception::UndefinedInstruction => CpuMode::Undefined,
            Exception::SoftwareInterrupt => CpuMode::Supervisor,
            Exception::PrefatchAbort => CpuMode::Abort,
            Exception::DataAbort => CpuMode::Abort,
            Exception::Reserved => CpuMode::Supervisor,
            Exception::Irq => CpuMode::Irq,
            Exception::Fiq => CpuMode::Fiq,
        }
    }

    pub fn masks_fiq(&self) -> (r: bool)
        ensures
            r == self.spec_masks_fiq(),
    {
        match self {
            Exception::Reset | Exception::Fiq => true,
            _ => false,
        }
    }
}

impl Core {
    /// The state after entry into the exception `e`.
    ///
    /// The status register is saved in the saved status register of the new
    /// mode, and the address of the instruction after the one at `pc` in its
    /// R14. The processor enters the new mode in ARM state with interrupts
    /// masked, and goes on at the vector with an empty pipeline.
    pub open spec fn spec_exception(self, e: Exception) -> Core {
        let bank = e.spec_mode().spec_bank();
        Core {
            spsr_bank: spec_array_update(self.spsr_bank, bank, self.cpsr),
            gpr_banked_r14: spec_array_update(self.gpr_banked_r14, bank, self.pc.wrapping_add(4)),
            cpsr: RegPSR {
                state: CpuState::ARM,
                mode: e.spec_mode(),
                irq_disabled: true,
                fiq_disabled: self.cpsr.fiq_disabled || e.spec_masks_fiq(),
                ..self.cpsr
            },
            pc: e.spec_vector(),
            flushed: true,
            ..self
        }
    }

    /// Enters the exception `e`.
    pub fn exception(&mut self, e: Exception)
        ensures
            *final(self) == old(self).spec_exception(e),
            final(self).wf(),
            final(self).flushed,
            final(self).cpsr.mode == e.spec_mode(),
            final(self).spec_spsr() == old(self).cpsr,
            valid_mode_bits(final(self).cpsr.spec_get() & 0x1f),
    {
        let mode = e.mode();
        let bank = mode.bank();
        self.spsr_bank[bank] = self.cpsr;
        self.gpr_banked_r14[bank] = self.pc.wrapping_add(4);
        self.cpsr.state = CpuState::ARM;
        self.cpsr.mode = mode;
        self.cpsr.irq_disabled = true;
        if e.masks_fiq() {
            self.cpsr.fiq_disabled = true;
        }
        self.pc = e.vector();
        self.flushed = true;
        proof {
            lemma_mode_bits(self.cpsr);
            assert(self.spsr_bank =~= spec_array_update(
                old(self).spsr_bank,
                bank as int,
                old(self).cpsr,
            ));
            assert(self.gpr_banked_r14 =~= spec_array_update(
                old(self).gpr_banked_r14,
                bank as int,
                old(self).pc.wrapping_add(4),
            ));
        }
    }
}

} // verus!
