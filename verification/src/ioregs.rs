//! The memory-mapped I/O registers: which device each halfword belongs to,
//! what it reads as and what a write to it does.
use crate::dma::DmaController;
use crate::gba::IoDevices;
use crate::gpu::{BgControl, DisplayControl, Gpu};
use crate::interrupt::{InterruptController, IrqBitmask};
use crate::timer::{Timer, Timers};
use vstd::array::spec_array_update;
use vstd::prelude::*;

verus! {

pub const IO_BASE: u32 = 0x0400_0000;

// LCD I/O Registers
pub const REG_DISPCNT: u32 = 0x0400_0000;

pub const REG_DISPSTAT: u32 = 0x0400_0004;

pub const REG_VCOUNT: u32 = 0x0400_0006;

pub const REG_BG0CNT: u32 = 0x0400_0008;

pub const REG_BG0HOFS: u32 = 0x0400_0010;

pub const REG_WIN0H: u32 = 0x0400_0040;

pub const REG_WIN1H: u32 = 0x0400_0042;

pub const REG_WIN0V: u32 = 0x0400_0044;

pub const REG_WIN1V: u32 = 0x0400_0046;

pub const REG_WININ: u32 = 0x0400_0048;

pub const REG_WINOUT: u32 = 0x0400_004a;

pub const REG_MOSAIC: u32 = 0x0400_004c;

pub const REG_BLDCNT: u32 = 0x0400_0050;

pub const REG_BLDALPHA: u32 = 0x0400_0052;

pub const REG_BLDY: u32 = 0x0400_0054;

// DMA Transfer Channels
pub const REG_DMA0SAD: u32 = 0x0400_00b0;

// Timer Registers
pub const REG_TM0CNT_L: u32 = 0x0400_0100;

// Keypad Input
pub const REG_KEYINPUT: u32 = 0x0400_0130;

// Interrupt, Waitstate, and Power-Down Control
pub const REG_IE: u32 = 0x0400_0200;

pub const REG_IF: u32 = 0x0400_0202;

pub const REG_WAITCNT: u32 = 0x0400_0204;

pub const REG_IME: u32 = 0x0400_0208;

pub const REG_POSTFLG: u32 = 0x0400_0300;

/// KEYINPUT with no key held: a set bit is a released key.
pub const KEYINPUT_ALL_RELEASED: u16 = 0x03ff;

/// WAITCNT.
#[derive(Debug, Clone, Copy, PartialEq, Eq, Structural)]
pub struct WaitControl(pub u16);

/// Whether the halfword at `ofs` is a register of the video unit.
pub open spec fn is_gpu_register(ofs: u32) -> bool {
    ofs % 2 == 0 && (ofs == 0x00 || (0x04 <= ofs < 0x20) || (0x40 <= ofs < 0x4e) || (0x50 <= ofs
        < 0x56))
}

/// What the video registers read as. `ofs` is the offset of the register
/// from the start of the I/O area. The scroll, mosaic and brightness
/// registers are write-only and read as zero.
pub open spec fn gpu_read(gpu: Gpu, ofs: u32) -> u16 {
    if ofs == 0x00 {
        gpu.dispcnt.0
    } else if ofs == 0x04 {
        gpu.dispstat.spec_get()
    } else if ofs == 0x06 {
        if gpu.current_scanline <= 0xffff {
            gpu.current_scanline as u16
        } else {
            0xffff
        }
    } else if 0x08 <= ofs < 0x10 {
        gpu.bgcnt[(ofs - 0x08) / 2].0
    } else if ofs == 0x40 {
        gpu.win0h
    } else if ofs == 0x42 {
        gpu.win1h
    } else if ofs == 0x44 {
        gpu.win0v
    } else if ofs == 0x46 {
        gpu.win1v
    } else if ofs == 0x48 {
        gpu.winin
    } else if ofs == 0x4a {
        gpu.winout
    } else if ofs == 0x50 {
        gpu.bldcnt
    } else if ofs == 0x52 {
        gpu.bldalpha
    } else {
        0
    }
}

/// The video unit after a write of `value` to the register at `ofs`. The
/// scanline counter is read-only; of DISPSTAT only the enables and the
/// compare value are written; the scroll registers keep nine bits and the
/// brightness register five.
pub open spec fn gpu_write(gpu: Gpu, ofs: u32, value: u16) -> Gpu {
    if ofs == 0x00 {
        Gpu { dispcnt: DisplayControl(value), ..gpu }
    } else if ofs == 0x04 {
        Gpu { dispstat: gpu.dispstat.spec_written(value), ..gpu }
    } else if 0x08 <= ofs < 0x10 {
        Gpu { bgcnt: spec_array_update(gpu.bgcnt, (ofs - 0x08) / 2, BgControl(value)), ..gpu }
    } else if 0x10 <= ofs < 0x20 {
        if (ofs - 0x10) % 4 < 2 {
            Gpu { bghofs: spec_array_update(gpu.bghofs, (ofs - 0x10) / 4, value & 0x1ff), ..gpu }
        } else {
            Gpu { bgvofs: spec_array_update(gpu.bgvofs, (ofs - 0x10) / 4, value & 0x1ff), ..gpu }
        }
    } else if ofs == 0x40 {
        Gpu { win0h: value, ..gpu }
    } else if ofs == 0x42 {
        Gpu { win1h: value, ..gpu }
    } else if ofs == 0x44 {
        Gpu { win0v: value, ..gpu }
    } else if ofs == 0x46 {
        Gpu { win1v: value, ..gpu }
    } else if ofs == 0x48 {
        Gpu { winin: value, ..gpu }
    } else if ofs == 0x4a {
        Gpu { winout: value, ..gpu }
    } else if ofs == 0x4c {
        Gpu { mosaic: value, ..gpu }
    } else if ofs == 0x50 {
        Gpu { bldcnt: value, ..gpu }
    } else if ofs == 0x52 {
        Gpu { bldalpha: value, ..gpu }
    } else if ofs == 0x54 {
        Gpu { bldy: value & 0x1f, ..gpu }
    } else {
        gpu
    }
}

/// What the DMA registers read as: the control register its last value, the
/// address and count registers, which are write-only, zero.
pub open spec fn dma_read(dmac: DmaController, ofs: u32) -> u16 {
    if (ofs - 0xb0) % 12 >= 10 {
        dmac.channels[(ofs - 0xb0) / 12].ctrl.0
    } else {
        0
    }
}

/// The DMA controller after a write of `value` to the register at `ofs`.
/// Each channel has twelve bytes of registers: source address, destination
/// address, word count and control.
pub open spec fn dma_write(dmac: DmaController, ofs: u32, value: u16) -> DmaController {
    let ch = (ofs - 0xb0) / 12;
    let reg = (ofs - 0xb0) % 12;
    if reg < 2 {
        dmac.spec_write_src_low(ch as int, value)
    } else if reg < 4 {
        dmac.spec_write_src_high(ch as int, value)
    } else if reg < 6 {
        dmac.spec_write_dst_low(ch as int, value)
    } else if reg < 8 {
        dmac.spec_write_dst_high(ch as int, value)
    } else if reg < 10 {
        dmac.spec_write_word_count(ch as int, value)
    } else {
        dmac.spec_write_dma_ctrl(ch as int, value)
    }
}

/// What the timer registers read as: the counter and the control register.
pub open spec fn timer_read(timers: Timers, ofs: u32) -> u16 {
    if (ofs - 0x100) % 4 < 2 {
        timers.timers[(ofs - 0x100) / 4].data
    } else {
        timers.timers[(ofs - 0x100) / 4].ctrl
    }
}

/// The timers after a write of `value` to the register at `ofs`. A write to
/// the counter register sets the counter and its reload value.
pub open spec fn timer_write(timers: Timers, ofs: u32, value: u16) -> Timers {
    let t = (ofs - 0x100) / 4;
    if (ofs - 0x100) % 4 < 2 {
        Timers {
            timers: spec_array_update(
                timers.timers,
                t as int,
                Timer { data: value, initial_data: value, ..timers.timers[t as int] },
            ),
        }
    } else {
        Timers {
            timers: spec_array_update(
                timers.timers,
                t as int,
                Timer { ctrl: value, ..timers.timers[t as int] },
            ),
        }
    }
}

/// The interrupt controller after a write of `value` to the register at
/// `ofs`. A write to IF acknowledges: it clears the bits that are set in
/// `value` and leaves the others.
pub open spec fn intc_write(intc: InterruptController, ofs: u32, value: u16) -> InterruptController {
    if ofs == 0x200 {
        InterruptController { interrupt_enable: IrqBitmask(value), ..intc }
    } else if ofs == 0x202 {
        InterruptController {
            interrupt_flags: IrqBitmask(intc.interrupt_flags.0 & !value),
            ..intc
        }
    } else {
        InterruptController { interrupt_master_enable: value & 1 != 0, ..intc }
    }
}

/// The I/O area: the devices, the registers that belong to none of them, and
/// a halfword of storage for every offset that is no register of a device.
#[derive(Debug, Clone, Copy)]
pub struct IoRegs {
    pub mem: [u16; 512],
    pub io: IoDevices,
    pub keyinput: u16,
    pub post_boot_flag: bool,
    pub waitcnt: WaitControl,
}

/// Whether the halfword at `ofs` is a register that gives back, when read,
/// the value last written to it.
pub open spec fn is_plain_register(ofs: u32) -> bool {
    &&& ofs < 0x400
    &&& ofs % 2 == 0
    &&& ofs != 0x04 && ofs != 0x06
    &&& !(0x10 <= ofs < 0x20)
    &&& ofs != 0x4c && ofs != 0x54
    &&& (0xb0 <= ofs < 0xe0 ==> (ofs - 0xb0) % 12 == 10)
    &&& ofs != 0x130
    &&& ofs != 0x202 && ofs != 0x208
    &&& ofs != 0x300
}

impl IoRegs {
    /// What the halfword at offset `ofs` of the I/O area reads as.
    pub open spec fn spec_read_16(self, ofs: u32) -> u16 {
        if is_gpu_register(ofs) {
            gpu_read(self.io.gpu, ofs)
        } else if 0xb0 <= ofs < 0xe0 {
            dma_read(self.io.dmac, ofs)
        } else if 0x100 <= ofs < 0x110 {
            timer_read(self.io.timers, ofs)
        } else if ofs == 0x130 {
            self.keyinput
        } else if ofs == 0x200 {
            self.io.intc.interrupt_enable.0
        } else if ofs == 0x202 {
            self.io.intc.interrupt_flags.0
        } else if ofs == 0x204 {
            self.waitcnt.0
        } else if ofs == 0x208 {
            if self.io.intc.interrupt_master_enable {
                1
            } else {
                0
            }
        } else if ofs == 0x300 {
            if self.post_boot_flag {
                1
            } else {
                0
            }
        } else if ofs < 0x400 {
            self.mem[(ofs / 2) as int]
        } else {
            0
        }
    }

    /// The I/O area after a write of `value` to the halfword at offset `ofs`.
    pub open spec fn spec_write_16(self, ofs: u32, value: u16) -> IoRegs {
        if is_gpu_register(ofs) {
            IoRegs { io: IoDevices { gpu: gpu_write(self.io.gpu, ofs, value), ..self.io }, ..self }
        } else if 0xb0 <= ofs < 0xe0 {
            IoRegs { io: IoDevices { dmac: dma_write(self.io.dmac, ofs, value), ..self.io }, ..self }
        } else if 0x100 <= ofs < 0x110 {
            IoRegs {
                io: IoDevices { timers: timer_write(self.io.timers, ofs, value), ..self.io },
                ..self
            }
        } else if ofs == 0x130 {
            self
        } else if ofs == 0x200 || ofs == 0x202 || ofs == 0x208 {
            IoRegs { io: IoDevices { intc: intc_write(self.io.intc, ofs, value), ..self.io }, ..self }
        } else if ofs == 0x204 {
            IoRegs { waitcnt: WaitControl(value), ..self }
        } else if ofs == 0x300 {
            IoRegs { post_boot_flag: value & 1 != 0, ..self }
        } else if ofs < 0x400 {
            IoRegs { mem: spec_array_update(self.mem, (ofs / 2) as int, value), ..self }
        } else {
            self
        }
    }

    pub open spec fn is_power_on(self) -> bool {
        &&& forall|i: int| 0 <= i < 512 ==> self.mem[i] == 0
        &&& self.io.intc == InterruptController::spec_new()
        &&& self.io.gpu.is_power_on()
        &&& self.io.timers.is_power_on()
        &&& self.io.dmac.is_power_on()
        &&& self.keyinput == KEYINPUT_ALL_RELEASED
        &&& !self.post_boot_flag
        &&& self.waitcnt == WaitControl(0)
    }

    pub fn new(io: IoDevices) -> (r: IoRegs)
        ensures
            r.io == io,
            forall|i: int| 0 <= i < 512 ==> r.mem[i] == 0,
            r.keyinput == KEYINPUT_ALL_RELEASED,
            !r.post_boot_flag,
            r.waitcnt == WaitControl(0),
    {
        IoRegs {
            mem: [0u16; 512],
            io: io,
            post_boot_flag: false,
            keyinput: KEYINPUT_ALL_RELEASED,
            waitcnt: WaitControl(0),
        }
    }

    fn gpu_read_16(&self, ofs: u32) -> (r: u16)
        requires
            ofs < 0x56,
        ensures
            r == gpu_read(self.io.gpu, ofs),
    {
        if ofs == 0x00 {
            self.io.gpu.dispcnt.0
        } else if ofs == 0x04 {
            self.io.gpu.dispstat.get()
        } else if ofs == 0x06 {
            if self.io.gpu.current_scanline <= 0xffff {
                self.io.gpu.current_scanline as u16
            } else {
                0xffff
            }
        } else if 0x08 <= ofs && ofs < 0x10 {
            self.io.gpu.bgcnt[((ofs - 0x08) / 2) as usize].0
        } else if ofs == 0x40 {
            self.io.gpu.win0h
        } else if ofs == 0x42 {
            self.io.gpu.win1h
        } else if ofs == 0x44 {
            self.io.gpu.win0v
        } else if ofs == 0x46 {
            self.io.gpu.win1v
        } else if ofs == 0x48 {
            self.io.gpu.winin
        } else if ofs == 0x4a {
            self.io.gpu.winout
        } else if ofs == 0x50 {
            self.io.gpu.bldcnt
        } else if ofs == 0x52 {
            self.io.gpu.bldalpha
        } else {
            0
        }
    }

    fn gpu_write_16(&mut self, ofs: u32, value: u16)
        requires
            ofs < 0x56,
        ensures
            *final(self) == (IoRegs {
                io: IoDevices { gpu: gpu_write(old(self).io.gpu, ofs, value), ..old(self).io },
                ..*old(self)
            }),
            final(self).io.gpu.state == old(self).io.gpu.state,
            final(self).io.gpu.current_scanline == old(self).io.gpu.current_scanline,
            final(self).io.gpu.cycles == old(self).io.gpu.cycles,
            final(self).io.gpu.pixeldata == old(self).io.gpu.pixeldata,
    {
        if ofs == 0x00 {
            self.io.gpu.dispcnt = DisplayControl(value);
        } else if ofs == 0x04 {
            self.io.gpu.dispstat.write(value);
        } else if 0x08 <= ofs && ofs < 0x10 {
            let bg = ((ofs - 0x08) / 2) as usize;
            self.io.gpu.bgcnt[bg] = BgControl(value);
            assert(self.io.gpu.bgcnt =~= spec_array_update(
                old(self).io.gpu.bgcnt,
                bg as int,
                BgControl(value),
            ));
        } else if 0x10 <= ofs && ofs < 0x20 {
            let bg = ((ofs - 0x10) / 4) as usize;
            if (ofs - 0x10) % 4 < 2 {
                self.io.gpu.bghofs[bg] = value & 0x1ff;
                assert(self.io.gpu.bghofs =~= spec_array_update(
                    old(self).io.gpu.bghofs,
                    bg as int,
                    value & 0x1ff,
                ));
            } else {
                self.io.gpu.bgvofs[bg] = value & 0x1ff;
                assert(self.io.gpu.bgvofs =~= spec_array_update(
                    old(self).io.gpu.bgvofs,
                    bg as int,
                    value & 0x1ff,
                ));
            }
        } else if ofs == 0x40 {
            self.io.gpu.win0h = value;
        } else if ofs == 0x42 {
            self.io.gpu.win1h = value;
        } else if ofs == 0x44 {
            self.io.gpu.win0v = value;
        } else if ofs == 0x46 {
            self.io.gpu.win1v = value;
        } else if ofs == 0x48 {
            self.io.gpu.winin = value;
        } else if ofs == 0x4a {
            self.io.gpu.winout = value;
        } else if ofs == 0x4c {
            self.io.gpu.mosaic = value;
        } else if ofs == 0x50 {
            self.io.gpu.bldcnt = value;
        } else if ofs == 0x52 {
            self.io.gpu.bldalpha = value;
        } else if ofs == 0x54 {
            self.io.gpu.bldy = value & 0x1f;
        }
    }

    fn dma_write_16(&mut self, ofs: u32, value: u16)
        requires
            0xb0 <= ofs < 0xe0,
        ensures
            *final(self) == (IoRegs {
                io: IoDevices { dmac: dma_write(old(self).io.dmac, ofs, value), ..old(self).io },
                ..*old(self)
            }),
            old(self).io.dmac.wf() ==> final(self).io.dmac.wf(),
    {
        let ch = ((ofs - 0xb0) / 12) as usize;
        let reg = (ofs - 0xb0) % 12;
        if reg < 2 {
            self.io.dmac.write_src_low(ch, value);
        } else if reg < 4 {
            self.io.dmac.write_src_high(ch, value);
        } else if reg < 6 {
            self.io.dmac.write_dst_low(ch, value);
        } else if reg < 8 {
            self.io.dmac.write_dst_high(ch, value);
        } else if reg < 10 {
            self.io.dmac.write_word_count(ch, value);
        } else {
            self.io.dmac.write_dma_ctrl(ch, value);
        }
    }

    fn timer_write_16(&mut self, ofs: u32, value: u16)
        requires
            0x100 <= ofs < 0x110,
        ensures
            *final(self) == (IoRegs {
                io: IoDevices { timers: timer_write(old(self).io.timers, ofs, value), ..old(self).io },
                ..*old(self)
            }),
    {
        let t = ((ofs - 0x100) / 4) as usize;
        let mut timer = self.io.timers.timers[t];
        if (ofs - 0x100) % 4 < 2 {
            timer.data = value;
            timer.initial_data = value;
        } else {
            timer.ctrl = value;
        }
        self.io.timers.timers[t] = timer;
        assert(self.io.timers.timers =~= spec_array_update(
            old(self).io.timers.timers,
            t as int,
            timer,
        ));
    }

    /// Reads the halfword at offset `ofs` of the I/O area.
    pub fn read_16(&self, ofs: u32) -> (r: u16)
        ensures
            r == self.spec_read_16(ofs),
    {
        if ofs % 2 == 0 && (ofs == 0x00 || (0x04 <= ofs && ofs < 0x20) || (0x40 <= ofs && ofs
            < 0x4e) || (0x50 <= ofs && ofs < 0x56)) {
            self.gpu_read_16(ofs)
        } else if 0xb0 <= ofs && ofs < 0xe0 {
            if (ofs - 0xb0) % 12 >= 10 {
                self.io.dmac.channels[((ofs - 0xb0) / 12) as usize].ctrl.0
            } else {
                0
            }
        } else if 0x100 <= ofs && ofs < 0x110 {
            let t = ((ofs - 0x100) / 4) as usize;
            if (ofs - 0x100) % 4 < 2 {
                self.io.timers.timers[t].data
            } else {
                self.io.timers.timers[t].ctrl
            }
        } else if ofs == 0x130 {
            self.keyinput
        } else if ofs == 0x200 {
            self.io.intc.interrupt_enable.0
        } else if ofs == 0x202 {
            self.io.intc.interrupt_flags.0
        } else if ofs == 0x204 {
            self.waitcnt.0
        } else if ofs == 0x208 {
            if self.io.intc.interrupt_master_enable {
                1
            } else {
                0
            }
        } else if ofs == 0x300 {
            if self.post_boot_flag {
                1
            } else {
                0
            }
        } else if ofs < 0x400 {
            self.mem[(ofs / 2) as usize]
        } else {
            0
        }
    }

    /// Writes `value` to the halfword at offset `ofs` of the I/O area.
    pub fn write_16(&mut self, ofs: u32, value: u16)
        ensures
            *final(self) == old(self).spec_write_16(ofs, value),
            final(self).io.follows(old(self).io),
    {
        if ofs % 2 == 0 && (ofs == 0x00 || (0x04 <= ofs && ofs < 0x20) || (0x40 <= ofs && ofs
            < 0x4e) || (0x50 <= ofs && ofs < 0x56)) {
            self.gpu_write_16(ofs, value);
        } else if 0xb0 <= ofs && ofs < 0xe0 {
            self.dma_write_16(ofs, value);
        } else if 0x100 <= ofs && ofs < 0x110 {
            self.timer_write_16(ofs, value);
        } else if ofs == 0x130 {
        } else if ofs == 0x200 {
            self.io.intc.interrupt_enable = IrqBitmask(value);
        } else if ofs == 0x202 {
            self.io.intc.interrupt_flags = IrqBitmask(self.io.intc.interrupt_flags.0 & !value);
        } else if ofs == 0x208 {
            self.io.intc.interrupt_master_enable = value & 1 != 0;
        } else if ofs == 0x204 {
            self.waitcnt = WaitControl(value);
        } else if ofs == 0x300 {
            self.post_boot_flag = value & 1 != 0;
        } else if ofs < 0x400 {
            self.mem[(ofs / 2) as usize] = value;
            assert(self.mem =~= spec_array_update(old(self).mem, (ofs / 2) as int, value));
        }
    }
}

/// A halfword written to a plain register is the halfword that the register
/// reads as afterwards.
pub proof fn lemma_write_then_read(regs: IoRegs, ofs: u32, value: u16)
    requires
        is_plain_register(ofs),
    ensures
        regs.spec_write_16(ofs, value).spec_read_16(ofs) == value,
{
    if 0xb0 <= ofs < 0xe0 {
        let ch = ((ofs - 0xb0) / 12) as int;
        assert(0 <= ch < 4);
    }
}

} // verus!
