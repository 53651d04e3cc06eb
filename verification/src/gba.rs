//! The whole machine: processor, bus and devices, and the loop that runs
//! them.
use crate::arm7tdmi::arm::lut::ArmLut;
use crate::arm7tdmi::cpu::{sat_add, Core};
use crate::arm7tdmi::exception::Exception;
use crate::arm7tdmi::psr::{lemma_mode_bits, valid_mode_bits};
use crate::dma::{DmaController, DmaRun};
use crate::gpu::{Gpu, GpuState};
use crate::interrupt::{InterruptController, IrqBitmask};
use crate::ioregs::IoRegs;
use crate::sysbus::{BusState, SysBus};
use crate::timer::Timers;
use vstd::prelude::*;

verus! {

/// The devices behind the I/O registers.
#[derive(Debug, Clone, Copy)]
pub struct IoDevices {
    pub intc: InterruptController,
    pub gpu: Gpu,
    pub timers: Timers,
    pub dmac: DmaController,
}

impl IoDevices {
    pub open spec fn wf(self) -> bool {
        &&& self.gpu.wf()
        &&& self.dmac.wf()
    }

    /// `self` is what `before` can have become by reads and writes on the
    /// bus alone: the devices are still well-formed, and the video unit
    /// stands where it stood, with the same picture.
    pub open spec fn follows(self, before: IoDevices) -> bool {
        &&& before.wf() ==> self.wf()
        &&& self.gpu.state == before.gpu.state
        &&& self.gpu.current_scanline == before.gpu.current_scanline
        &&& self.gpu.cycles == before.gpu.cycles
        &&& self.gpu.pixeldata == before.gpu.pixeldata
    }

    pub fn new() -> (r: IoDevices)
        ensures
            r.wf(),
            r.intc == InterruptController::spec_new(),
            r.gpu.is_power_on(),
            r.timers.is_power_on(),
            r.dmac.is_power_on(),
    {
        IoDevices {
            intc: InterruptController::new(),
            gpu: Gpu::new(),
            timers: Timers::new(),
            dmac: DmaController::new(),
        }
    }
}

/// The machine: the processor, everything on the bus, and the dispatch
/// table of the processor.
pub struct GameBoyAdvance {
    pub cpu: Core,
    pub sysbus: SysBus,
    pub lut: ArmLut,
}

/// The state of the machine: of the processor and of everything on the bus.
pub ghost struct MachineState {
    pub cpu: Core,
    pub bus: BusState,
}

impl View for GameBoyAdvance {
    type V = MachineState;

    open spec fn view(&self) -> MachineState {
        MachineState { cpu: self.cpu, bus: self.sysbus@ }
    }
}

/// How many changes of state lie between the video unit and the next
/// vertical blank.
pub open spec fn states_before_vblank(gpu: Gpu) -> int {
    match gpu.state {
        GpuState::HDraw => 2 * (160 - gpu.current_scanline),
        GpuState::HBlank => 2 * (160 - gpu.current_scanline) - 1,
        GpuState::VBlank => 0,
    }
}

/// How many cycles the current state of the video unit still lasts.
pub open spec fn cycles_before_timeout(gpu: Gpu) -> int {
    if gpu.cycles >= gpu.spec_timeout() {
        0
    } else {
        gpu.spec_timeout() - gpu.cycles
    }
}

impl MachineState {
    /// The state with the devices replaced.
    pub open spec fn with_io(self, io: IoDevices) -> MachineState {
        MachineState {
            bus: BusState { ioregs: IoRegs { io, ..self.bus.ioregs }, ..self.bus },
            ..self
        }
    }

    pub open spec fn io(self) -> IoDevices {
        self.bus.ioregs.io
    }

    /// The state after one instruction, and the cycles that it took.
    pub open spec fn emulated_cpu(self) -> MachineState {
        MachineState { cpu: self.cpu.spec_step(self.bus).0, bus: self.cpu.spec_step(self.bus).1 }
    }

    /// The first two stages of a peripheral step: the timers and then the
    /// video unit advance by `cycles` cycles. Returns the state and the
    /// interrupts that they ask for.
    pub open spec fn after_timers_and_video(self, cycles: usize) -> (MachineState, IrqBitmask) {
        let io = self.io();
        (
            self.with_io(
                IoDevices {
                    timers: io.timers.spec_step(cycles),
                    gpu: io.gpu.spec_step(cycles, self.bus.vram, self.bus.palette_ram),
                    ..io
                },
            ),
            io.gpu.step_irqs(cycles, io.timers.stepped_irqs(cycles, IrqBitmask(0))),
        )
    }

    /// The trigger that the video unit gives the DMA channels in a step of
    /// `cycles` cycles: 2 if a horizontal blank begins, 1 if the vertical
    /// blank begins, 0 otherwise.
    pub open spec fn blank_trigger(self, cycles: usize) -> u16 {
        let before = self.io().gpu.state;
        let after = self.io().gpu.stepped(cycles).state;
        if after != before && after == GpuState::HBlank {
            2
        } else if after != before && after == GpuState::VBlank {
            1
        } else {
            0
        }
    }

    /// The third stage of a peripheral step: the DMA controller runs one
    /// round. It works on its state as it is when the stage begins and puts
    /// it back when the stage ends; the cycles of the transfers go to the
    /// cycle counter of the processor.
    pub open spec fn after_dma(self, irqs: IrqBitmask, cycles: usize, trigger: u16) -> (
        MachineState,
        IrqBitmask,
    ) {
        let done = (DmaRun { bus: self.bus, dmac: self.io().dmac, irqs }).ran(cycles, trigger);
        (
            (MachineState {
                cpu: Core {
                    cycles: sat_add(self.cpu.cycles, done.dmac.cycles as u64),
                    ..self.cpu
                },
                bus: done.bus,
            }).with_io(
                IoDevices { dmac: DmaController { cycles: 0, ..done.dmac }, ..done.bus.ioregs.io },
            ),
            done.irqs,
        )
    }

    /// The last stage of a peripheral step: the interrupt controller
    /// records the requests, and then the processor takes the IRQ exception
    /// if an interrupt is due and the processor does not mask it.
    pub open spec fn after_interrupts(self, irqs: IrqBitmask) -> MachineState {
        let io = self.io();
        let intc = io.intc.with_requests(irqs);
        MachineState {
            cpu: if !self.cpu.cpsr.irq_disabled && intc.spec_irq_pending() {
                self.cpu.spec_exception(Exception::Irq)
            } else {
                self.cpu
            },
            ..self.with_io(IoDevices { intc, ..io })
        }
    }

    /// The cycles that the last instruction took, as far as `usize` can
    /// hold them.
    pub open spec fn last_cost(self) -> usize {
        if self.cpu.step_cycles > usize::MAX {
            usize::MAX
        } else {
            self.cpu.step_cycles as usize
        }
    }

    /// The cycles that the next instruction takes.
    #[verifier::opaque]
    pub open spec fn step_cost(self) -> usize {
        self.emulated_cpu().last_cost()
    }

    /// The state after one instruction and the peripheral step that follows
    /// it.
    #[verifier::opaque]
    pub open spec fn stepped(self) -> MachineState {
        self.emulated_cpu().emulated_peripherals(self.emulated_cpu().last_cost())
    }

    /// The state after `n` steps.
    pub open spec fn steps(self, n: nat) -> MachineState
        decreases n,
    {
        if n == 0 {
            self
        } else {
            self.steps((n - 1) as nat).stepped()
        }
    }

    /// The state with `keys` as the state of the keys.
    pub open spec fn with_keys(self, keys: u16) -> MachineState {
        MachineState {
            bus: BusState { ioregs: IoRegs { keyinput: keys, ..self.bus.ioregs }, ..self.bus },
            ..self
        }
    }

    /// The video unit is in the vertical blank.
    pub open spec fn in_vblank(self) -> bool {
        self.io().gpu.state == GpuState::VBlank
    }

    /// A frame that starts in this state has its picture complete after
    /// `drawn` steps and ends after `total`: the vertical blank begins with
    /// step `drawn` and not before, and ends with step `total` and not
    /// before.
    pub open spec fn frame_ends(self, drawn: nat, total: nat) -> bool {
        &&& drawn < total
        &&& forall|k: nat| k < drawn ==> !(#[trigger] self.steps(k)).in_vblank()
        &&& forall|k: nat| drawn <= k < total ==> (#[trigger] self.steps(k)).in_vblank()
        &&& !self.steps(total).in_vblank()
    }

    /// The state after the peripherals have advanced by `cycles` cycles:
    /// timers, video unit, DMA and interrupts, in this order.
    pub open spec fn emulated_peripherals(self, cycles: usize) -> MachineState {
        let (s1, irqs1) = self.after_timers_and_video(cycles);
        let (s2, irqs2) = s1.after_dma(irqs1, cycles, self.blank_trigger(cycles));
        s2.after_interrupts(irqs2)
    }
}

impl GameBoyAdvance {
    pub open spec fn wf(self) -> bool {
        &&& self.cpu.wf()
        &&& self.sysbus.ioregs.io.wf()
        &&& self.lut.wf()
    }

    /// The video unit of the machine.
    pub open spec fn gpu(self) -> Gpu {
        self.sysbus.ioregs.io.gpu
    }

    /// A machine with the given processor state, BIOS and cartridge, its
    /// devices as after power-on.
    pub fn new(cpu: Core, bios_rom: Vec<u8>, gamepak: Vec<u8>) -> (r: GameBoyAdvance)
        requires
            cpu.wf(),
        ensures
            r.wf(),
            r.cpu == cpu,
            r.sysbus.bios == bios_rom,
            r.sysbus.gamepak == gamepak,
            r.sysbus.ioregs.is_power_on(),
            r.sysbus.rams_are_zero(),
    {
        let ioregs = IoRegs::new(IoDevices::new());
        let sysbus = SysBus::new(bios_rom, gamepak, ioregs);
        GameBoyAdvance { cpu: cpu, sysbus: sysbus, lut: ArmLut::new() }
    }

    /// Stores the state of the keys, as the host reports it, in KEYINPUT.
    pub fn update_key_state(&mut self, keys: u16)
        ensures
            final(self)@ == old(self)@.with_keys(keys),
            final(self).lut == old(self).lut,
            old(self).wf() ==> final(self).wf(),
    {
        self.sysbus.ioregs.keyinput = keys;
    }

    /// Executes one instruction. Returns the cycles that it took.
    pub fn emulate_cpu(&mut self) -> (cycles: usize)
        requires
            old(self).wf(),
        ensures
            final(self)@ == old(self)@.emulated_cpu(),
            final(self).wf(),
            final(self).lut == old(self).lut,
            cycles >= 1,
            cycles == final(self)@.last_cost(),
            final(self).cpu.cycles >= old(self).cpu.cycles,
            valid_mode_bits(final(self).cpu.cpsr.spec_get() & 0x1f),
            final(self).sysbus.ioregs.io.follows(old(self).sysbus.ioregs.io),
    {
        let cost = self.cpu.step(&mut self.sysbus, &self.lut);
        if cost > usize::MAX as u64 {
            usize::MAX
        } else {
            cost as usize
        }
    }

    /// The first two stages of a peripheral step. Returns the interrupts
    /// asked for and the trigger for the DMA channels.
    fn step_timers_and_video(&mut self, cycles: usize) -> (r: (IrqBitmask, u16))
        requires
            old(self).wf(),
        ensures
            final(self)@ == old(self)@.after_timers_and_video(cycles).0,
            r.0 == old(self)@.after_timers_and_video(cycles).1,
            r.1 == old(self)@.blank_trigger(cycles),
            final(self).wf(),
            final(self).lut == old(self).lut,
            final(self).cpu == old(self).cpu,
            final(self).gpu() == old(self).gpu().spec_step(
                cycles,
                old(self).sysbus.vram@,
                old(self).sysbus.palette_ram@,
            ),
    {
        let mut irqs = IrqBitmask(0);
        self.sysbus.ioregs.io.timers.step(cycles, &mut irqs);
        let prev_state = self.sysbus.ioregs.io.gpu.state;
        self.sysbus.ioregs.io.gpu.step(
            cycles,
            &self.sysbus.vram,
            &self.sysbus.palette_ram,
            &mut irqs,
        );
        let new_state = self.sysbus.ioregs.io.gpu.state;
        let trigger: u16 = if new_state != prev_state {
            match new_state {
                GpuState::HBlank => 2,
                GpuState::VBlank => 1,
                _ => 0,
            }
        } else {
            0
        };
        (irqs, trigger)
    }

    /// The third stage of a peripheral step.
    fn step_dma(&mut self, irqs: &mut IrqBitmask, cycles: usize, trigger: u16)
        requires
            old(self).wf(),
        ensures
            (final(self)@, *final(irqs)) == old(self)@.after_dma(*old(irqs), cycles, trigger),
            final(self).wf(),
            final(self).lut == old(self).lut,
            final(self).cpu.cycles >= old(self).cpu.cycles,
            final(self).cpu == (Core { cycles: final(self).cpu.cycles, ..old(self).cpu }),
            final(self).gpu().state == old(self).gpu().state,
            final(self).gpu().current_scanline == old(self).gpu().current_scanline,
            final(self).gpu().cycles == old(self).gpu().cycles,
            final(self).gpu().pixeldata == old(self).gpu().pixeldata,
    {
        let mut dmac = self.sysbus.ioregs.io.dmac;
        dmac.run(cycles, trigger, &mut self.sysbus, irqs);
        let dma_cycles = dmac.cycles;
        dmac.cycles = 0;
        self.sysbus.ioregs.io.dmac = dmac;
        self.cpu.cycles = self.cpu.cycles.saturating_add(dma_cycles as u64);
    }

    /// The last stage of a peripheral step.
    fn deliver_interrupts(&mut self, irqs: IrqBitmask)
        requires
            old(self).wf(),
        ensures
            final(self)@ == old(self)@.after_interrupts(irqs),
            final(self).wf(),
            final(self).lut == old(self).lut,
            final(self).cpu.cycles == old(self).cpu.cycles,
            final(self).gpu() == old(self).gpu(),
            valid_mode_bits(final(self).cpu.cpsr.spec_get() & 0x1f),
    {
        self.sysbus.ioregs.io.intc.request_irqs(irqs);
        if !self.cpu.cpsr.irq_disabled && self.sysbus.ioregs.io.intc.irq_pending() {
            self.cpu.exception(Exception::Irq);
        }
        proof {
            lemma_mode_bits(self.cpu.cpsr);
        }
    }

    /// Advances timers, video unit and DMA by `cycles` cycles, in this
    /// order, hands the interrupts that they ask for to the interrupt
    /// controller, and lets the processor take the IRQ exception if one is
    /// due.
    pub fn emulate_peripherals(&mut self, cycles: usize)
        requires
            old(self).wf(),
        ensures
            final(self)@ == old(self)@.emulated_peripherals(cycles),
            final(self).wf(),
            final(self).lut == old(self).lut,
            final(self).cpu.cycles >= old(self).cpu.cycles,
            valid_mode_bits(final(self).cpu.cpsr.spec_get() & 0x1f),
            final(self).gpu().state == old(self).gpu().stepped(cycles).state,
            final(self).gpu().current_scanline == old(self).gpu().stepped(cycles).current_scanline,
            final(self).gpu().cycles == old(self).gpu().stepped(cycles).cycles,
            final(self).gpu().pixeldata == old(self).gpu().spec_step(
                cycles,
                old(self).sysbus.vram@,
                old(self).sysbus.palette_ram@,
            ).pixeldata,
    {
        let (mut irqs, trigger) = self.step_timers_and_video(cycles);
        self.step_dma(&mut irqs, cycles, trigger);
        self.deliver_interrupts(irqs);
    }
}

impl GameBoyAdvance {
    /// Executes one instruction and advances the peripherals by the cycles
    /// that it took. Returns whether the vertical blank has begun in this
    /// step, which is when the picture is complete.
    pub fn step(&mut self) -> (vblank_begins: bool)
        requires
            old(self).wf(),
        ensures
            final(self)@ == old(self)@.stepped(),
            final(self).wf(),
            final(self).lut == old(self).lut,
            final(self).cpu.cycles >= old(self).cpu.cycles,
            valid_mode_bits(final(self).cpu.cpsr.spec_get() & 0x1f),
            vblank_begins == (final(self).gpu().state == GpuState::VBlank && old(self).gpu().state
                != GpuState::VBlank),
            old(self)@.step_cost() >= 1,
            final(self).gpu().state == old(self).gpu().stepped(old(self)@.step_cost()).state,
            final(self).gpu().current_scanline == old(self).gpu().stepped(
                old(self)@.step_cost(),
            ).current_scanline,
            final(self).gpu().cycles == old(self).gpu().stepped(old(self)@.step_cost()).cycles,
            old(self).gpu().state != GpuState::HDraw ==> final(self).gpu().pixeldata
                == old(self).gpu().pixeldata,
    {
        reveal(MachineState::stepped);
        reveal(MachineState::step_cost);
        let cycles = self.emulate_cpu();
        let prev_gpu_state = self.sysbus.ioregs.io.gpu.state;
        self.emulate_peripherals(cycles);
        let new_gpu_state = self.sysbus.ioregs.io.gpu.state;
        new_gpu_state != prev_gpu_state && new_gpu_state == GpuState::VBlank
    }

    /// Runs the machine for one frame: up to the vertical blank and through
    /// it, step by step. `keys` is the state of the keys for this frame.
    /// Returns the picture of the frame, one `0x00RRGGBB` word per pixel, as
    /// it stands when the vertical blank begins; it is still on the screen
    /// when the frame ends at the start of line 0.
    pub fn frame(&mut self, keys: u16) -> (picture: Vec<u32>)
        requires
            old(self).wf(),
        ensures
            final(self).wf(),
            final(self).lut == old(self).lut,
            exists|drawn: nat, total: nat|
                #[trigger] old(self)@.with_keys(keys).frame_ends(drawn, total) && final(self)@
                    == old(self)@.with_keys(keys).steps(total) && old(self)@.with_keys(keys).steps(
                    drawn,
                ).io().gpu.pixeldata == final(self).gpu().pixeldata,
            final(self).gpu().state == GpuState::HDraw,
            final(self).gpu().current_scanline == 0,
            final(self).cpu.cycles >= old(self).cpu.cycles,
            picture@.len() == 38400,
            forall|i: int|
                0 <= i < 38400 ==> #[trigger] picture@[i]
                    == final(self).gpu().pixeldata.pixels[i].spec_rgb24(),
    {
        self.update_key_state(keys);
        let ghost start = self@;
        let ghost mut n: nat = 0;
        while self.sysbus.ioregs.io.gpu.state != GpuState::VBlank
            invariant
                self.wf(),
                self.lut == old(self).lut,
                self.cpu.cycles >= old(self).cpu.cycles,
                self@ == start.steps(n),
                forall|k: nat| k < n ==> !(#[trigger] start.steps(k)).in_vblank(),
            decreases states_before_vblank(self.gpu()), cycles_before_timeout(self.gpu()),
        {
            let _ = self.step();
            proof {
                n = n + 1;
            }
        }
        let picture = self.sysbus.ioregs.io.gpu.render();
        let ghost shown = self.gpu().pixeldata;
        let ghost drawn = n;
        while self.sysbus.ioregs.io.gpu.state == GpuState::VBlank
            invariant
                self.wf(),
                self.lut == old(self).lut,
                self.cpu.cycles >= old(self).cpu.cycles,
                self.gpu().pixeldata == shown,
                self.gpu().state == GpuState::VBlank || (self.gpu().state == GpuState::HDraw
                    && self.gpu().current_scanline == 0),
                self@ == start.steps(n),
                drawn <= n,
                start.steps(drawn).in_vblank(),
                start.steps(drawn).io().gpu.pixeldata == shown,
                forall|k: nat| k < drawn ==> !(#[trigger] start.steps(k)).in_vblank(),
                forall|k: nat| drawn <= k < n ==> (#[trigger] start.steps(k)).in_vblank(),
            decreases
                    if self.gpu().state == GpuState::VBlank {
                        1int
                    } else {
                        0int
                    },
                    cycles_before_timeout(self.gpu()),
        {
            let _ = self.step();
            proof {
                n = n + 1;
            }
        }
        assert(start.frame_ends(drawn, n));
        picture
    }
}

} // verus!
