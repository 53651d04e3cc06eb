//! The four DMA channels.
use crate::interrupt::{Interrupt, IrqBitmask};
use crate::sysbus::{BusState, SysBus};
use crate::timer::sat_add_usize;
use vstd::array::spec_array_update;
use vstd::prelude::*;

verus! {

/// DMAxCNT_H. Bits 6..5 and 8..7 say how the destination and the source
/// address move after each unit, bit 9 repeats the transfer, bit 10 selects
/// 32-bit units, bits 13..12 select the trigger, bit 14 asks for an
/// interrupt at the end, bit 15 enables the channel.
#[derive(Debug, Clone, Copy, PartialEq, Eq, Structural)]
pub struct DmaChannelCtrl(pub u16);

proof fn lemma_ctrl_fields(x: u16)
    by (bit_vector)
    ensures
        (x >> 5u16) & 3 < 4,
        (x >> 7u16) & 3 < 4,
        (x >> 12u16) & 3 < 4,
        (x & 0x7fff) & 0x8000 == 0,
        (x | 0x8000) & 0x8000 != 0,
        ((x & 0x7fff) >> 5u16) & 3 == (x >> 5u16) & 3,
        ((x & 0x7fff) >> 7u16) & 3 == (x >> 7u16) & 3,
        ((x & 0x7fff) >> 12u16) & 3 == (x >> 12u16) & 3,
        (x & 0x7fff) & 0x200 == x & 0x200,
        (x & 0x7fff) & 0x400 == x & 0x400,
        (x & 0x7fff) & 0x4000 == x & 0x4000,
{
}

impl DmaChannelCtrl {
    pub open spec fn spec_dst_adj(self) -> u16 {
        (self.0 >> 5u16) & 3
    }

    pub open spec fn spec_src_adj(self) -> u16 {
        (self.0 >> 7u16) & 3
    }

    pub open spec fn spec_repeat(self) -> bool {
        self.0 & 0x200 != 0
    }

    pub open spec fn spec_is_32bit(self) -> bool {
        self.0 & 0x400 != 0
    }

    pub open spec fn spec_timing(self) -> u16 {
        (self.0 >> 12u16) & 3
    }

    pub open spec fn spec_is_triggering_irq(self) -> bool {
        self.0 & 0x4000 != 0
    }

    pub open spec fn spec_is_enabled(self) -> bool {
        self.0 & 0x8000 != 0
    }

    /// The register with the enable bit set to `enabled`.
    pub open spec fn spec_with_enabled(self, enabled: bool) -> DmaChannelCtrl {
        if enabled {
            DmaChannelCtrl(self.0 | 0x8000)
        } else {
            DmaChannelCtrl(self.0 & 0x7fff)
        }
    }

    pub fn dst_adj(&self) -> (r: u16)
        ensures
            r == self.spec_dst_adj(),
            r < 4,
    {
        proof {
            lemma_ctrl_fields(self.0);
        }
        (self.0 >> 5u16) & 3
    }

    pub fn src_adj(&self) -> (r: u16)
        ensures
            r == self.spec_src_adj(),
            r < 4,
    {
        proof {
            lemma_ctrl_fields(self.0);
        }
        (self.0 >> 7u16) & 3
    }

    pub fn repeat(&self) -> (r: bool)
        ensures
            r == self.spec_repeat(),
    {
        self.0 & 0x200 != 0
    }

    pub fn is_32bit(&self) -> (r: bool)
        ensures
            r == self.spec_is_32bit(),
    {
        self.0 & 0x400 != 0
    }

    pub fn timing(&self) -> (r: u16)
        ensures
            r == self.spec_timing(),
            r < 4,
    {
        proof {
            lemma_ctrl_fields(self.0);
        }
        (self.0 >> 12u16) & 3
    }

    pub fn is_triggering_irq(&self) -> (r: bool)
        ensures
            r == self.spec_is_triggering_irq(),
    {
        self.0 & 0x4000 != 0
    }

    pub fn is_enabled(&self) -> (r: bool)
        ensures
            r == self.spec_is_enabled(),
    {
        self.0 & 0x8000 != 0
    }

    /// Sets or clears the enable bit and leaves every other field alone.
    pub fn set_enabled(&mut self, enabled: bool)
        ensures
            *final(self) == old(self).spec_with_enabled(enabled),
            final(self).spec_is_enabled() == enabled,
            !enabled ==> final(self).spec_dst_adj() == old(self).spec_dst_adj(),
            !enabled ==> final(self).spec_src_adj() == old(self).spec_src_adj(),
            !enabled ==> final(self).spec_repeat() == old(self).spec_repeat(),
            !enabled ==> final(self).spec_is_32bit() == old(self).spec_is_32bit(),
            !enabled ==> final(self).spec_timing() == old(self).spec_timing(),
            !enabled ==> final(self).spec_is_triggering_irq() == old(self).spec_is_triggering_irq(),
    {
        proof {
            lemma_ctrl_fields(self.0);
        }
        if enabled {
            self.0 = self.0 | 0x8000;
        } else {
            self.0 = self.0 & 0x7fff;
        }
    }
}

/// One channel: where it reads, where it writes, how many units it moves,
/// and how long it has been enabled.
#[derive(Debug, Clone, Copy, PartialEq, Eq, Structural)]
pub struct DmaChannel {
    pub id: usize,
    pub src: u32,
    pub dst: u32,
    pub wc: u32,
    pub ctrl: DmaChannelCtrl,
    /// Cycles since the channel was enabled or rearmed.
    pub cycles: usize,
}

impl DmaChannel {
    pub open spec fn wf(self) -> bool {
        self.id < 4
    }

    /// The interrupt source of the channel: source 8 for channel 0, up to
    /// source 11 for channel 3.
    pub open spec fn spec_irq(self) -> Interrupt {
        if self.id == 0 {
            Interrupt::DMA0
        } else if self.id == 1 {
            Interrupt::DMA1
        } else if self.id == 2 {
            Interrupt::DMA2
        } else {
            Interrupt::DMA3
        }
    }

    pub open spec fn spec_new(id: usize) -> DmaChannel {
        DmaChannel { id, src: 0, dst: 0, wc: 0, ctrl: DmaChannelCtrl(0), cycles: 0 }
    }

    pub fn new(id: usize) -> (r: DmaChannel)
        requires
            id < 4,
        ensures
            r == DmaChannel::spec_new(id),
            r.wf(),
    {
        DmaChannel { id: id, src: 0, dst: 0, wc: 0, ctrl: DmaChannelCtrl(0), cycles: 0 }
    }

    pub fn get_irq(&self) -> (r: Interrupt)
        requires
            self.wf(),
        ensures
            r == self.spec_irq(),
            r.spec_index() == self.id + 8,
    {
        if self.id == 0 {
            Interrupt::DMA0
        } else if self.id == 1 {
            Interrupt::DMA1
        } else if self.id == 2 {
            Interrupt::DMA2
        } else {
            Interrupt::DMA3
        }
    }
}

#[derive(Debug, Clone, Copy)]
pub struct DmaController {
    pub channels: [DmaChannel; 4],
    /// The cycles that transfers have taken and that nobody has collected
    /// yet.
    pub cycles: usize,
}

impl DmaController {
    /// Each channel knows its own number.
    pub open spec fn wf(self) -> bool {
        &&& self.channels[0].id == 0
        &&& self.channels[1].id == 1
        &&& self.channels[2].id == 2
        &&& self.channels[3].id == 3
    }

    /// The controller with channel `ch` replaced.
    pub open spec fn with_channel(self, ch: int, channel: DmaChannel) -> DmaController {
        DmaController { channels: spec_array_update(self.channels, ch, channel), ..self }
    }

    pub open spec fn spec_write_src_low(self, ch: int, low: u16) -> DmaController {
        self.with_channel(
            ch,
            DmaChannel { src: (self.channels[ch].src & 0xffff0000) | (low as u32), ..self.channels[ch] },
        )
    }

    pub open spec fn spec_write_src_high(self, ch: int, high: u16) -> DmaController {
        self.with_channel(
            ch,
            DmaChannel {
                src: (self.channels[ch].src & 0xffff) | ((high as u32) << 16u32),
                ..self.channels[ch]
            },
        )
    }

    pub open spec fn spec_write_dst_low(self, ch: int, low: u16) -> DmaController {
        self.with_channel(
            ch,
            DmaChannel { dst: (self.channels[ch].dst & 0xffff0000) | (low as u32), ..self.channels[ch] },
        )
    }

    pub open spec fn spec_write_dst_high(self, ch: int, high: u16) -> DmaController {
        self.with_channel(
            ch,
            DmaChannel {
                dst: (self.channels[ch].dst & 0xffff) | ((high as u32) << 16u32),
                ..self.channels[ch]
            },
        )
    }

    pub open spec fn spec_write_word_count(self, ch: int, value: u16) -> DmaController {
        self.with_channel(ch, DmaChannel { wc: value as u32, ..self.channels[ch] })
    }

    /// The controller after a write of `value` to the control register of
    /// channel `ch`. A write that enables the channel starts its count of
    /// cycles at zero.
    pub open spec fn spec_write_dma_ctrl(self, ch: int, value: u16) -> DmaController {
        self.with_channel(
            ch,
            DmaChannel {
                ctrl: DmaChannelCtrl(value),
                cycles: if DmaChannelCtrl(value).spec_is_enabled() {
                    0
                } else {
                    self.channels[ch].cycles
                },
                ..self.channels[ch]
            },
        )
    }

    /// The controller after power-on: every channel disabled and zero.
    pub open spec fn is_power_on(self) -> bool {
        &&& self.cycles == 0
        &&& forall|i: int| 0 <= i < 4 ==> self.channels[i] == DmaChannel::spec_new(i as usize)
    }

    pub fn new() -> (r: DmaController)
        ensures
            r.wf(),
            r.is_power_on(),
    {
        DmaController {
            channels: [
                DmaChannel::new(0),
                DmaChannel::new(1),
                DmaChannel::new(2),
                DmaChannel::new(3),
            ],
            cycles: 0,
        }
    }

    pub fn write_src_low(&mut self, ch: usize, low: u16)
        requires
            ch < 4,
        ensures
            *final(self) == old(self).spec_write_src_low(ch as int, low),
            old(self).wf() ==> final(self).wf(),
    {
        let src = self.channels[ch].src;
        let mut channel = self.channels[ch];
        channel.src = (src & 0xffff0000) | (low as u32);
        self.channels[ch] = channel;
        assert(self.channels =~= spec_array_update(old(self).channels, ch as int, channel));
    }

    pub fn write_src_high(&mut self, ch: usize, high: u16)
        requires
            ch < 4,
        ensures
            *final(self) == old(self).spec_write_src_high(ch as int, high),
            old(self).wf() ==> final(self).wf(),
    {
        let src = self.channels[ch].src;
        let high = high as u32;
        let mut channel = self.channels[ch];
        channel.src = (src & 0xffff) | (high << 16u32);
        self.channels[ch] = channel;
        assert(self.channels =~= spec_array_update(old(self).channels, ch as int, channel));
    }

    pub fn write_dst_low(&mut self, ch: usize, low: u16)
        requires
            ch < 4,
        ensures
            *final(self) == old(self).spec_write_dst_low(ch as int, low),
            old(self).wf() ==> final(self).wf(),
    {
        let dst = self.channels[ch].dst;
        let mut channel = self.channels[ch];
        channel.dst = (dst & 0xffff0000) | (low as u32);
        self.channels[ch] = channel;
        assert(self.channels =~= spec_array_update(old(self).channels, ch as int, channel));
    }

    pub fn write_dst_high(&mut self, ch: usize, high: u16)
        requires
            ch < 4,
        ensures
            *final(self) == old(self).spec_write_dst_high(ch as int, high),
            old(self).wf() ==> final(self).wf(),
    {
        let dst = self.channels[ch].dst;
        let high = high as u32;
        let mut channel = self.channels[ch];
        channel.dst = (dst & 0xffff) | (high << 16u32);
        self.channels[ch] = channel;
        assert(self.channels =~= spec_array_update(old(self).channels, ch as int, channel));
    }

    pub fn write_word_count(&mut self, ch: usize, value: u16)
        requires
            ch < 4,
        ensures
            *final(self) == old(self).spec_write_word_count(ch as int, value),
            old(self).wf() ==> final(self).wf(),
    {
        let value = value as u32;
        let mut channel = self.channels[ch];
        channel.wc = value;
        self.channels[ch] = channel;
        assert(self.channels =~= spec_array_update(old(self).channels, ch as int, channel));
    }

    pub fn write_dma_ctrl(&mut self, ch: usize, value: u16)
        requires
            ch < 4,
        ensures
            *final(self) == old(self).spec_write_dma_ctrl(ch as int, value),
            old(self).wf() ==> final(self).wf(),
    {
        let ctrl = DmaChannelCtrl(value);
        let mut channel = self.channels[ch];
        if ctrl.is_enabled() {
            channel.cycles = 0;
        }
        channel.ctrl = ctrl;
        self.channels[ch] = channel;
        assert(self.channels =~= spec_array_update(old(self).channels, ch as int, channel));
    }
}

/// Where an address stands after one unit of `word_size` bytes: mode 1 moves
/// it down, mode 2 leaves it, modes 0 and 3 move it up. Addresses wrap.
pub open spec fn adjusted(addr: u32, mode: u16, word_size: u32) -> u32 {
    if mode == 1 {
        addr.wrapping_sub(word_size)
    } else if mode == 2 {
        addr
    } else {
        addr.wrapping_add(word_size)
    }
}

/// The cycles that a transfer of `wc` units takes: one to read and one to
/// write each unit.
pub open spec fn transfer_cycles(wc: u32) -> usize {
    sat_add_usize(wc as usize, wc as usize)
}

impl DmaChannel {
    /// The bytes of one unit.
    pub open spec fn spec_word_size(self) -> u32 {
        if self.ctrl.spec_is_32bit() {
            4
        } else {
            2
        }
    }

    /// Bus and channel after one unit has moved from `src` to `dst`.
    pub open spec fn spec_unit(self, bus: BusState) -> (BusState, DmaChannel) {
        (
            if self.ctrl.spec_is_32bit() {
                bus.write_32(self.dst, bus.read_32(self.src))
            } else {
                bus.write_16(self.dst, bus.read_16(self.src))
            },
            DmaChannel {
                src: adjusted(self.src, self.ctrl.spec_src_adj(), self.spec_word_size()),
                dst: adjusted(self.dst, self.ctrl.spec_dst_adj(), self.spec_word_size()),
                ..self
            },
        )
    }

    /// Bus and channel after `n` units have moved, one after the other.
    pub open spec fn spec_units(self, bus: BusState, n: nat) -> (BusState, DmaChannel)
        decreases n,
    {
        if n == 0 {
            (bus, self)
        } else {
            let (b, c) = self.spec_unit(bus);
            c.spec_units(b, (n - 1) as nat)
        }
    }

    /// The channel at the end of a transfer that left it as `moved`. A
    /// repeating channel is armed again, with its destination back where it
    /// was before the transfer if the destination mode is 3. Any other
    /// channel is disabled.
    pub open spec fn spec_completed(self, moved: DmaChannel) -> DmaChannel {
        if self.ctrl.spec_repeat() {
            DmaChannel {
                cycles: 0,
                dst: if self.ctrl.spec_dst_adj() == 3 {
                    self.dst
                } else {
                    moved.dst
                },
                ..moved
            }
        } else {
            DmaChannel { ctrl: moved.ctrl.spec_with_enabled(false), ..moved }
        }
    }

    /// Bus, channel and interrupt requests after a whole transfer of `wc`
    /// units.
    pub open spec fn spec_xfer(self, bus: BusState, irqs: IrqBitmask) -> (
        BusState,
        DmaChannel,
        IrqBitmask,
    ) {
        let (b, moved) = self.spec_units(bus, self.wc as nat);
        (
            b,
            self.spec_completed(moved),
            irqs.with_irq_if(self.ctrl.spec_is_triggering_irq(), self.spec_irq()),
        )
    }

    /// Whether the channel transfers now, given what has happened: `timing`
    /// is 1 at the start of the vertical blank, 2 at the start of a
    /// horizontal blank and 0 when only time has passed. A channel with
    /// timing 0 waits until it has been enabled for two cycles.
    pub open spec fn spec_is_due(self, timing: u16) -> bool {
        self.ctrl.spec_is_enabled() && self.ctrl.spec_timing() == timing && (timing != 0
            || self.cycles >= 2)
    }

    /// Bus, channel and requests after `cycles` more cycles have passed.
    pub open spec fn spec_update(self, cycles: usize, bus: BusState, irqs: IrqBitmask) -> (
        BusState,
        DmaChannel,
        IrqBitmask,
    ) {
        let ch = DmaChannel { cycles: sat_add_usize(self.cycles, cycles), ..self };
        if ch.spec_is_due(0) {
            ch.spec_xfer(bus, irqs)
        } else {
            (bus, ch, irqs)
        }
    }

    pub fn is_due(&self, timing: u16) -> (r: bool)
        ensures
            r == self.spec_is_due(timing),
    {
        self.ctrl.is_enabled() && self.ctrl.timing() == timing && (timing != 0 || self.cycles >= 2)
    }

    /// Lets `cycles` cycles pass and transfers if the channel is enabled
    /// with immediate timing and has waited long enough. Returns the cycles
    /// that the transfer took.
    pub fn update(&mut self, cycles: usize, sb: &mut SysBus, irqs: &mut IrqBitmask) -> (cost: usize)
        requires
            old(self).wf(),
        ensures
            (final(sb)@, *final(self), *final(irqs)) == old(self).spec_update(
                cycles,
                old(sb)@,
                *old(irqs),
            ),
            final(self).wf(),
            final(self).id == old(self).id,
            cost == if (DmaChannel {
                cycles: sat_add_usize(old(self).cycles, cycles),
                ..*old(self)
            }).spec_is_due(0) {
                transfer_cycles(old(self).wc)
            } else {
                0
            },
            final(sb).ioregs.io.follows(old(sb).ioregs.io),
    {
        self.cycles = self.cycles.saturating_add(cycles);
        if self.is_due(0) {
            self.xfer(sb, irqs)
        } else {
            0
        }
    }

    /// Moves `wc` units from `src` to `dst`, raises the interrupt if the
    /// channel asks for one, and rearms or disables the channel. Returns the
    /// cycles that the transfer took.
    pub fn xfer(&mut self, sb: &mut SysBus, irqs: &mut IrqBitmask) -> (cost: usize)
        requires
            old(self).wf(),
        ensures
            (final(sb)@, *final(self), *final(irqs)) == old(self).spec_xfer(old(sb)@, *old(irqs)),
            !old(self).ctrl.spec_repeat() ==> !final(self).ctrl.spec_is_enabled(),
            final(self).ctrl.spec_is_enabled() ==> old(self).ctrl.spec_is_enabled(),
            final(self).wf(),
            final(self).id == old(self).id,
            final(self).wc == old(self).wc,
            cost == transfer_cycles(old(self).wc),
            final(sb).ioregs.io.follows(old(sb).ioregs.io),
    {
        let word_size: u32 = if self.ctrl.is_32bit() {
            4
        } else {
            2
        };
        let dst_rld = self.dst;
        let src_adj = self.ctrl.src_adj();
        let dst_adj = self.ctrl.dst_adj();
        let mut word: u32 = 0;
        while word < self.wc
            invariant
                word <= self.wc,
                self.wc == old(self).wc,
                self.ctrl == old(self).ctrl,
                self.id == old(self).id,
                self.cycles == old(self).cycles,
                word_size == self.spec_word_size(),
                src_adj == self.ctrl.spec_src_adj(),
                dst_adj == self.ctrl.spec_dst_adj(),
                self.spec_units(sb@, (self.wc - word) as nat) == old(self).spec_units(
                    old(sb)@,
                    old(self).wc as nat,
                ),
                sb.ioregs.io.follows(old(sb).ioregs.io),
            decreases self.wc - word,
        {
            if word_size == 4 {
                let w = sb.read_32(self.src);
                sb.write_32(self.dst, w)
            } else {
                let hw = sb.read_16(self.src);
                sb.write_16(self.dst, hw)
            }
            if src_adj == 1 {
                self.src = self.src.wrapping_sub(word_size);
            } else if src_adj != 2 {
                self.src = self.src.wrapping_add(word_size);
            }
            if dst_adj == 1 {
                self.dst = self.dst.wrapping_sub(word_size);
            } else if dst_adj != 2 {
                self.dst = self.dst.wrapping_add(word_size);
            }
            word += 1;
        }
        if self.ctrl.is_triggering_irq() {
            irqs.add_irq(self.get_irq());
        }
        let cost = (self.wc as usize).saturating_add(self.wc as usize);
        if self.ctrl.repeat() {
            self.cycles = 0;
            if  /* reload */
            3 == dst_adj {
                self.dst = dst_rld;
            }
        } else {
            self.ctrl.set_enabled(false);
        }
        cost
    }
}

/// What a round of transfers works on: the bus, the controller and the
/// interrupt requests.
pub ghost struct DmaRun {
    pub bus: BusState,
    pub dmac: DmaController,
    pub irqs: IrqBitmask,
}

impl DmaRun {
    /// The state after channel `i` has had its turn: if it is due it
    /// transfers, and the cycles of the transfer are added to what the
    /// controller has to hand on.
    #[verifier::opaque]
    pub open spec fn served(self, i: int, timing: u16) -> DmaRun {
        let ch = self.dmac.channels[i];
        if ch.spec_is_due(timing) {
            let (bus, done, irqs) = ch.spec_xfer(self.bus, self.irqs);
            DmaRun {
                bus,
                dmac: DmaController {
                    channels: spec_array_update(self.dmac.channels, i, done),
                    cycles: sat_add_usize(self.dmac.cycles, transfer_cycles(ch.wc)),
                },
                irqs,
            }
        } else {
            self
        }
    }

    /// The state after every channel has had its turn, channel 0 first.
    #[verifier::opaque]
    pub open spec fn served_all(self, timing: u16) -> DmaRun {
        self.served(0, timing).served(1, timing).served(2, timing).served(3, timing)
    }
}

impl DmaRun {
    /// The state after one round of the controller in a step of `cycles`
    /// cycles: first the channels whose timing is `trigger` transfer, 1
    /// standing for the start of the vertical blank, 2 for the start of a
    /// horizontal blank and 0 for no event; then `cycles` cycles pass on
    /// every channel, and the channels with immediate timing that are due
    /// transfer.
    #[verifier::opaque]
    pub open spec fn ran(self, cycles: usize, trigger: u16) -> DmaRun {
        let triggered = if trigger == 0 {
            self
        } else {
            self.served_all(trigger)
        };
        (DmaRun { dmac: triggered.dmac.spec_elapsed(cycles), ..triggered }).served_all(0)
    }
}

impl DmaController {
    /// The controller with `cycles` more cycles counted on every channel.
    #[verifier::opaque]
    pub open spec fn spec_elapsed(self, cycles: usize) -> DmaController {
        DmaController {
            channels: [
                DmaChannel {
                    cycles: sat_add_usize(self.channels[0].cycles, cycles),
                    ..self.channels[0]
                },
                DmaChannel {
                    cycles: sat_add_usize(self.channels[1].cycles, cycles),
                    ..self.channels[1]
                },
                DmaChannel {
                    cycles: sat_add_usize(self.channels[2].cycles, cycles),
                    ..self.channels[2]
                },
                DmaChannel {
                    cycles: sat_add_usize(self.channels[3].cycles, cycles),
                    ..self.channels[3]
                },
            ],
            ..self
        }
    }

    fn serve(&mut self, ch: usize, timing: u16, sb: &mut SysBus, irqs: &mut IrqBitmask)
        requires
            ch < 4,
            old(self).wf(),
        ensures
            (DmaRun { bus: final(sb)@, dmac: *final(self), irqs: *final(irqs) }) == (DmaRun {
                bus: old(sb)@,
                dmac: *old(self),
                irqs: *old(irqs),
            }).served(ch as int, timing),
            final(self).wf(),
            final(sb).ioregs.io.follows(old(sb).ioregs.io),
            final(self).channels[ch as int].ctrl.spec_is_enabled() ==> old(self).channels[ch as int].ctrl.spec_is_enabled(),
            forall|i: int| 0 <= i < 4 && i != ch ==> final(self).channels[i] == old(self).channels[i],
    {
        reveal(DmaRun::served);
        if self.channels[ch].is_due(timing) {
            let mut channel = self.channels[ch];
            let cost = channel.xfer(sb, irqs);
            self.channels[ch] = channel;
            self.cycles = self.cycles.saturating_add(cost);
            assert(self.channels =~= spec_array_update(old(self).channels, ch as int, channel));
        }
    }

    fn serve_all(&mut self, timing: u16, sb: &mut SysBus, irqs: &mut IrqBitmask)
        requires
            old(self).wf(),
        ensures
            (DmaRun { bus: final(sb)@, dmac: *final(self), irqs: *final(irqs) }) == (DmaRun {
                bus: old(sb)@,
                dmac: *old(self),
                irqs: *old(irqs),
            }).served_all(timing),
            final(self).wf(),
            final(sb).ioregs.io.follows(old(sb).ioregs.io),
    {
        reveal(DmaRun::served_all);
        self.serve(0, timing, sb, irqs);
        self.serve(1, timing, sb, irqs);
        self.serve(2, timing, sb, irqs);
        self.serve(3, timing, sb, irqs);
    }

    /// Lets `cycles` cycles pass on every channel and runs the channels
    /// with immediate timing that are due, channel 0 first.
    pub fn step(&mut self, cycles: usize, sb: &mut SysBus, irqs: &mut IrqBitmask)
        requires
            old(self).wf(),
        ensures
            (DmaRun { bus: final(sb)@, dmac: *final(self), irqs: *final(irqs) }) == (DmaRun {
                bus: old(sb)@,
                dmac: old(self).spec_elapsed(cycles),
                irqs: *old(irqs),
            }).served_all(0),
            final(self).wf(),
            final(sb).ioregs.io.follows(old(sb).ioregs.io),
    {
        reveal(DmaController::spec_elapsed);
        let mut ch: usize = 0;
        while ch < 4
            invariant
                ch <= 4,
                self.wf(),
                self.cycles == old(self).cycles,
                forall|i: int|
                    0 <= i < ch ==> self.channels[i] == old(self).spec_elapsed(cycles).channels[i],
                forall|i: int| ch <= i < 4 ==> self.channels[i] == old(self).channels[i],
            decreases 4 - ch,
        {
            reveal(DmaController::spec_elapsed);
            let mut channel = self.channels[ch];
            channel.cycles = channel.cycles.saturating_add(cycles);
            self.channels[ch] = channel;
            ch += 1;
        }
        assert(self.channels =~= old(self).spec_elapsed(cycles).channels);
        self.serve_all(0, sb, irqs);
    }

    /// Runs the enabled channels that wait for the vertical blank.
    pub fn notify_vblank(&mut self, sb: &mut SysBus, irqs: &mut IrqBitmask)
        requires
            old(self).wf(),
        ensures
            (DmaRun { bus: final(sb)@, dmac: *final(self), irqs: *final(irqs) }) == (DmaRun {
                bus: old(sb)@,
                dmac: *old(self),
                irqs: *old(irqs),
            }).served_all(1),
            final(self).wf(),
            final(sb).ioregs.io.follows(old(sb).ioregs.io),
    {
        self.serve_all(1, sb, irqs);
    }

    /// Runs the enabled channels that wait for the horizontal blank.
    pub fn notify_hblank(&mut self, sb: &mut SysBus, irqs: &mut IrqBitmask)
        requires
            old(self).wf(),
        ensures
            (DmaRun { bus: final(sb)@, dmac: *final(self), irqs: *final(irqs) }) == (DmaRun {
                bus: old(sb)@,
                dmac: *old(self),
                irqs: *old(irqs),
            }).served_all(2),
            final(self).wf(),
            final(sb).ioregs.io.follows(old(sb).ioregs.io),
    {
        self.serve_all(2, sb, irqs);
    }
}

impl DmaController {
    /// Runs one round of the controller: the channels that the event named
    /// by `trigger` sets off, then those with immediate timing.
    pub fn run(&mut self, cycles: usize, trigger: u16, sb: &mut SysBus, irqs: &mut IrqBitmask)
        requires
            old(self).wf(),
        ensures
            (DmaRun { bus: final(sb)@, dmac: *final(self), irqs: *final(irqs) }) == (DmaRun {
                bus: old(sb)@,
                dmac: *old(self),
                irqs: *old(irqs),
            }).ran(cycles, trigger),
            final(self).wf(),
            final(sb).ioregs.io.follows(old(sb).ioregs.io),
    {
        reveal(DmaRun::ran);
        if trigger != 0 {
            self.serve_all(trigger, sb, irqs);
        }
        self.step(cycles, sb, irqs);
    }
}

/// The units of a transfer move the addresses of a channel and nothing else
/// of it.
pub proof fn lemma_units_keep_channel(ch: DmaChannel, bus: BusState, n: nat)
    ensures
        ch.spec_units(bus, n).1 == (DmaChannel {
            src: ch.spec_units(bus, n).1.src,
            dst: ch.spec_units(bus, n).1.dst,
            ..ch
        }),
    decreases n,
{
    if n > 0 {
        let (b, c) = ch.spec_unit(bus);
        lemma_units_keep_channel(c, b, (n - 1) as nat);
    }
}

/// After a transfer, a channel that does not repeat is disabled, whatever
/// else its control register says.
pub proof fn lemma_transfer_disables(ch: DmaChannel, bus: BusState, irqs: IrqBitmask)
    requires
        !ch.ctrl.spec_repeat(),
    ensures
        !ch.spec_xfer(bus, irqs).1.ctrl.spec_is_enabled(),
{
    lemma_units_keep_channel(ch, bus, ch.wc as nat);
    lemma_ctrl_fields(ch.ctrl.0);
}

} // verus!
