use rustboyadvance_core::arm7tdmi::cpu::Core;
use rustboyadvance_core::arm7tdmi::psr::{CpuMode, CpuState};
use rustboyadvance_core::gba::{GameBoyAdvance, IoDevices};
use rustboyadvance_core::gpu::{DisplayControl, GpuState};
use rustboyadvance_core::interrupt::{Interrupt, InterruptController, IrqBitmask};
use rustboyadvance_core::timer::{Timer, Timers};

fn machine(words: &[u32]) -> GameBoyAdvance {
    let mut bios = vec![0u8; 0x4000];
    for (i, w) in words.iter().enumerate() {
        bios[4 * i..4 * i + 4].copy_from_slice(&w.to_le_bytes());
    }
    GameBoyAdvance::new(Core::new(), bios, vec![0u8; 0x100])
}

// 0x00: b 0x80 ; 0x18: subs pc, lr, #4 ; 0x80: b 0x80
fn idle_program() -> Vec<u32> {
    let mut words = vec![0u32; 0x21];
    words[0] = 0xea00_001e;
    words[6] = 0xe25e_f004;
    words[0x20] = 0xeaff_fffe;
    words
}

#[test]
fn a_new_machine_is_at_power_on() {
    let gba = machine(&[1, 2]);
    assert_eq!(gba.cpu.pc, 0);
    assert_eq!(gba.sysbus.bios[0], 1);
    assert_eq!(gba.sysbus.gamepak.len(), 0x100);
    assert_eq!(gba.lut.entries.len(), 4096);
    let io = IoDevices::new();
    assert_eq!(gba.sysbus.ioregs.io.intc, io.intc);
    assert_eq!(gba.sysbus.ioregs.io.intc, InterruptController::new());
    assert_eq!(gba.sysbus.ioregs.io.gpu.state, GpuState::HDraw);
    assert_eq!(gba.sysbus.ioregs.io.gpu.current_scanline, 0);
    assert_eq!(gba.sysbus.ioregs.io.dmac.channels[3].id, 3);
    assert_eq!(gba.sysbus.ioregs.io.timers.timers[0], Timer::new());
}

#[test]
fn frame_runs_to_the_start_of_the_next_frame() {
    let mut gba = machine(&idle_program());
    // a bitmap with one pixel on the last line
    gba.sysbus.write_16(0x0400_0000, 3);
    gba.sysbus.write_16(0x0600_0000 + 2 * (159 * 240 + 239), 0x7fff);
    gba.sysbus.write_16(0x0600_0000 + 2 * 3, 0x001f);
    let before = gba.cpu.cycles;
    let picture = gba.frame(0x03fe);
    assert_eq!(gba.sysbus.ioregs.keyinput, 0x03fe);
    assert_eq!(gba.sysbus.read_16(0x0400_0130), 0x03fe);
    assert_eq!(gba.sysbus.ioregs.io.gpu.state, GpuState::HDraw);
    assert_eq!(gba.sysbus.ioregs.io.gpu.current_scanline, 0);
    assert!(gba.cpu.cycles >= before + 280_896);
    assert_eq!(picture.len(), 240 * 160);
    assert_eq!(picture[159 * 240 + 239], 0x00f8_f8f8);
    assert_eq!(picture[3], 0x00f8_0000);
    assert_eq!(picture[4], 0);
    assert_eq!(picture, gba.sysbus.ioregs.io.gpu.render());
    // the next frame shows what has been drawn since
    gba.sysbus.write_16(0x0600_0000 + 2 * 4, 0x03e0);
    let cycles = gba.cpu.cycles;
    let second = gba.frame(0x03ff);
    assert_eq!(second[4], 0x0000_f800);
    assert_eq!(gba.sysbus.ioregs.io.gpu.current_scanline, 0);
    assert!(gba.cpu.cycles > cycles);
}

#[test]
fn frame_started_in_the_vertical_blank_ends_with_it() {
    let mut gba = machine(&idle_program());
    gba.sysbus.ioregs.io.gpu.state = GpuState::VBlank;
    gba.sysbus.ioregs.io.gpu.current_scanline = 160;
    gba.sysbus.ioregs.io.gpu.cycles = 80_000;
    gba.frame(0x03ff);
    assert_eq!(gba.sysbus.ioregs.io.gpu.state, GpuState::HDraw);
    assert_eq!(gba.sysbus.ioregs.io.gpu.current_scanline, 0);
    assert!(gba.cpu.cycles < 5_000);
}

#[test]
fn step_reports_the_start_of_the_vertical_blank_once() {
    let mut gba = machine(&idle_program());
    let mut begun = 0;
    let mut steps = 0;
    while gba.sysbus.ioregs.io.gpu.state != GpuState::VBlank {
        let last = gba.cpu.cycles;
        if gba.step() {
            begun += 1;
            assert_eq!(gba.sysbus.ioregs.io.gpu.state, GpuState::VBlank);
        }
        assert!(gba.cpu.cycles > last);
        steps += 1;
    }
    assert_eq!(begun, 1);
    assert!(steps > 1000);
    assert_eq!(gba.step(), false);
    assert_eq!(gba.sysbus.ioregs.io.gpu.current_scanline, 160);
}

#[test]
fn emulate_cpu_returns_the_cycles_of_the_instruction() {
    let mut gba = machine(&[0xe3a0_0403, 0xe580_0000, 0xe3a0_0402, 0xe580_0000]);
    assert_eq!(gba.emulate_cpu(), 1);
    assert_eq!(gba.emulate_cpu(), 2);
    assert_eq!(gba.emulate_cpu(), 1);
    // a store to the external work RAM takes three cycles
    assert_eq!(gba.emulate_cpu(), 4);
    assert_eq!(gba.cpu.cycles, 8);
    assert_eq!(gba.sysbus.ioregs.io.gpu.cycles, 0);
}

#[test]
fn peripherals_advance_in_order_and_interrupt_the_processor() {
    let mut gba = machine(&idle_program());
    gba.cpu.pc = 0x80;
    gba.cpu.cpsr.irq_disabled = false;
    gba.cpu.cpsr.mode = CpuMode::System;
    // interrupts of the horizontal blank and of DMA 0, which runs on it
    gba.sysbus.write_16(0x0400_0004, 0x0010);
    gba.sysbus.write_16(0x0400_0200, 0x0102);
    gba.sysbus.write_16(0x0400_0208, 1);
    gba.sysbus.write_32(0x0300_0000, 0xcafe_f00d);
    gba.sysbus.write_32(0x0400_00b0, 0x0300_0000);
    gba.sysbus.write_32(0x0400_00b4, 0x0300_0010);
    gba.sysbus.write_16(0x0400_00b8, 1);
    gba.sysbus.write_16(0x0400_00ba, 0x8000 | 0x4000 | 0x2000 | 0x0400);
    gba.emulate_peripherals(959);
    assert_eq!(gba.sysbus.ioregs.io.intc.interrupt_flags, IrqBitmask(0));
    assert_eq!(gba.cpu.cpsr.mode, CpuMode::System);
    assert_eq!(gba.sysbus.read_32(0x0300_0010), 0);
    gba.emulate_peripherals(1);
    assert_eq!(gba.sysbus.ioregs.io.gpu.state, GpuState::HBlank);
    // the transfer has run in the same step
    assert_eq!(gba.sysbus.read_32(0x0300_0010), 0xcafe_f00d);
    assert_eq!(
        gba.sysbus.ioregs.io.intc.interrupt_flags,
        IrqBitmask(Interrupt::LCD_HBlank.mask() | Interrupt::DMA0.mask())
    );
    assert_eq!(gba.sysbus.ioregs.io.dmac.channels[0].ctrl.is_enabled(), false);
    // its cycles went to the processor
    assert_eq!(gba.cpu.cycles, 2);
    assert_eq!(gba.sysbus.ioregs.io.dmac.cycles, 0);
    // and the processor has taken the interrupt
    assert_eq!(gba.cpu.cpsr.mode, CpuMode::Irq);
    assert_eq!(gba.cpu.cpsr.irq_disabled, true);
    assert_eq!(gba.cpu.cpsr.state, CpuState::ARM);
    assert_eq!(gba.cpu.pc, 0x18);
    assert_eq!(gba.cpu.get_reg(14), 0x84);
    assert_eq!(gba.cpu.spsr().mode, CpuMode::System);
    // the handler returns to where the program was
    gba.emulate_cpu();
    assert_eq!(gba.cpu.pc, 0x80);
    assert_eq!(gba.cpu.cpsr.mode, CpuMode::System);
    assert_eq!(gba.cpu.cpsr.irq_disabled, false);
}

#[test]
fn masked_interrupts_wait_in_the_controller() {
    let mut gba = machine(&idle_program());
    gba.sysbus.write_16(0x0400_0004, 0x0010);
    gba.sysbus.write_16(0x0400_0200, 0x0002);
    gba.sysbus.write_16(0x0400_0208, 1);
    // the processor masks interrupts after power-on
    gba.emulate_peripherals(960);
    assert_eq!(gba.sysbus.ioregs.io.intc.interrupt_flags, IrqBitmask(2));
    assert_eq!(gba.cpu.cpsr.mode, CpuMode::Supervisor);
    assert_eq!(gba.cpu.pc, 0);
    // once it does not, the request that is still standing is taken
    gba.cpu.cpsr.irq_disabled = false;
    gba.emulate_peripherals(1);
    assert_eq!(gba.cpu.cpsr.mode, CpuMode::Irq);
    // an acknowledged request is gone
    gba.sysbus.write_16(0x0400_0202, 2);
    assert_eq!(gba.sysbus.ioregs.io.intc.irq_pending(), false);
    // without the master enable nothing is delivered
    let mut gba = machine(&idle_program());
    gba.cpu.cpsr.irq_disabled = false;
    gba.sysbus.write_16(0x0400_0004, 0x0010);
    gba.sysbus.write_16(0x0400_0200, 0x0002);
    gba.emulate_peripherals(960);
    assert_eq!(gba.sysbus.ioregs.io.intc.interrupt_flags, IrqBitmask(2));
    assert_eq!(gba.cpu.cpsr.mode, CpuMode::Supervisor);
}

#[test]
fn the_vertical_blank_sets_off_its_dma_channels() {
    let mut gba = machine(&idle_program());
    gba.sysbus.ioregs.io.gpu.state = GpuState::HBlank;
    gba.sysbus.ioregs.io.gpu.current_scanline = 159;
    gba.sysbus.write_32(0x0300_0000, 0x600d_f00d);
    gba.sysbus.write_32(0x0400_00d4, 0x0300_0000);
    gba.sysbus.write_32(0x0400_00d8, 0x0600_0000);
    gba.sysbus.write_16(0x0400_00dc, 1);
    gba.sysbus.write_16(0x0400_00de, 0x8000 | 0x1000 | 0x0400);
    gba.emulate_peripherals(271);
    assert_eq!(gba.sysbus.read_32(0x0600_0000), 0);
    gba.emulate_peripherals(1);
    assert_eq!(gba.sysbus.ioregs.io.gpu.state, GpuState::VBlank);
    assert_eq!(gba.sysbus.read_32(0x0600_0000), 0x600d_f00d);
}

#[test]
fn timers_tick_overflow_and_cascade() {
    let mut timers = Timers::new();
    let mut irqs = IrqBitmask(0);
    // timer 0 counts every cycle, asks for an interrupt, reloads 0xfffe
    timers.timers[0] = Timer { data: 0xfffe, initial_data: 0xfffe, ctrl: 0x00c0, cycles: 0 };
    // timer 1 counts the overflows of timer 0
    timers.timers[1] = Timer { data: 0xffff, initial_data: 7, ctrl: 0x0084, cycles: 0 };
    // timer 2 counts every 64 cycles
    timers.timers[2] = Timer { data: 0, initial_data: 0, ctrl: 0x0081, cycles: 60 };
    // timer 3 is stopped
    timers.timers[3] = Timer { data: 5, initial_data: 0, ctrl: 0x0040, cycles: 0 };
    timers.step(1, &mut irqs);
    assert_eq!(timers.timers[0].data, 0xffff);
    assert_eq!(timers.timers[1].data, 0xffff);
    assert_eq!((timers.timers[2].data, timers.timers[2].cycles), (0, 61));
    assert_eq!(irqs, IrqBitmask(0));
    timers.step(3, &mut irqs);
    assert_eq!(timers.timers[0].data, 0xfffe);
    assert_eq!(timers.timers[1].data, 7);
    assert_eq!((timers.timers[2].data, timers.timers[2].cycles), (1, 0));
    assert_eq!(timers.timers[3].data, 5);
    assert_eq!(irqs, IrqBitmask(Interrupt::Timer0_Overflow.mask()));
    timers.step(64 * 3 + 5, &mut irqs);
    assert_eq!((timers.timers[2].data, timers.timers[2].cycles), (4, 5));
    // the prescalers
    let mut t = Timer { data: 0, initial_data: 0, ctrl: 0x0082, cycles: 0 };
    assert_eq!(t.step(255, false), false);
    assert_eq!((t.data, t.cycles), (0, 255));
    assert_eq!(t.step(258, false), false);
    assert_eq!((t.data, t.cycles), (2, 1));
    let mut t = Timer { data: 0xffff, initial_data: 0x10, ctrl: 0x0083, cycles: 1023 };
    assert_eq!(t.step(1, true), true);
    assert_eq!((t.data, t.cycles), (0x10, 0));
    let mut t = Timer { data: 1, initial_data: 0, ctrl: 0x0004, cycles: 0 };
    assert_eq!(t.step(100, true), false);
    assert_eq!(t.data, 1);
}

#[test]
fn interrupt_sources_and_controller() {
    for index in 0..14 {
        let irq = Interrupt::from_index(index).unwrap();
        assert_eq!(irq.index(), index);
        assert_eq!(irq.mask(), 1 << index);
    }
    assert_eq!(Interrupt::from_index(14), None);
    assert_eq!(Interrupt::from_index(8), Some(Interrupt::DMA0));
    assert_eq!(Interrupt::from_index(0), Some(Interrupt::LCD_VBlank));
    assert_eq!(Interrupt::from_index(13), Some(Interrupt::GamePak));
    let mut irqs = IrqBitmask(0);
    irqs.add_irq(Interrupt::Keypad);
    irqs.add_irq(Interrupt::LCD_VCounterMatch);
    irqs.add_irq(Interrupt::Keypad);
    assert_eq!(irqs, IrqBitmask(0x1004));
    let mut intc = InterruptController::new();
    assert_eq!(intc.irq_pending(), false);
    intc.request_irqs(irqs);
    intc.request_irqs(IrqBitmask(1));
    assert_eq!(intc.interrupt_flags, IrqBitmask(0x1005));
    assert_eq!(intc.irq_pending(), false);
    intc.interrupt_enable = IrqBitmask(0x0004);
    assert_eq!(intc.irq_pending(), false);
    intc.interrupt_master_enable = true;
    assert_eq!(intc.irq_pending(), true);
    intc.interrupt_enable = IrqBitmask(0x0002);
    assert_eq!(intc.irq_pending(), false);
}

#[test]
fn display_control_after_power_on_blanks_the_screen() {
    let mut gba = machine(&idle_program());
    assert_eq!(gba.sysbus.ioregs.io.gpu.dispcnt, DisplayControl(0x80));
    gba.update_key_state(0x0155);
    assert_eq!(gba.sysbus.ioregs.keyinput, 0x0155);
}
