//! Interrupt sources, the request bitmask and the interrupt controller.
use vstd::prelude::*;

verus! {

/// The fourteen interrupt sources, in the order of their bits.
#[allow(non_camel_case_types)]
#[derive(Debug, Clone, Copy, PartialEq, Eq, Structural)]
pub enum Interrupt {
    LCD_VBlank,
    LCD_HBlank,
    LCD_VCounterMatch,
    Timer0_Overflow,
    Timer1_Overflow,
    Timer2_Overflow,
    Timer3_Overflow,
    SerialCommunication,
    DMA0,
    DMA1,
    DMA2,
    DMA3,
    Keypad,
    GamePak,
}

impl Interrupt {
    /// The number of the source: its bit position in IE and IF.
    pub open spec fn spec_index(self) -> usize {
        match self {
            Interrupt::LCD_VBlank => 0,
            Interrupt::LCD_HBlank => 1,
            Interrupt::LCD_VCounterMatch => 2,
            Interrupt::Timer0_Overflow => 3,
            Interrupt::Timer1_Overflow => 4,
            Interrupt::Timer2_Overflow => 5,
            Interrupt::Timer3_Overflow => 6,
            Interrupt::SerialCommunication => 7,
            Interrupt::DMA0 => 8,
            Interrupt::DMA1 => 9,
            Interrupt::DMA2 => 10,
            Interrupt::DMA3 => 11,
            Interrupt::Keypad => 12,
            Interrupt::GamePak => 13,
        }
    }

    /// The source with the number `index`, if there is one.
    pub open spec fn spec_from_index(index: usize) -> Option<Interrupt> {
        if index == 0 {
            Some(Interrupt::LCD_VBlank)
        } else if index == 1 {
            Some(Interrupt::LCD_HBlank)
        } else if index == 2 {
            Some(Interrupt::LCD_VCounterMatch)
        } else if index == 3 {
            Some(Interrupt::Timer0_Overflow)
        } else if index == 4 {
            Some(Interrupt::Timer1_Overflow)
        } else if index == 5 {
            Some(Interrupt::Timer2_Overflow)
        } else if index == 6 {
            Some(Interrupt::Timer3_Overflow)
        } else if index == 7 {
            Some(Interrupt::SerialCommunication)
        } else if index == 8 {
            Some(Interrupt::DMA0)
        } else if index == 9 {
            Some(Interrupt::DMA1)
        } else if index == 10 {
            Some(Interrupt::DMA2)
        } else if index == 11 {
            Some(Interrupt::DMA3)
        } else if index == 12 {
            Some(Interrupt::Keypad)
        } else if index == 13 {
            Some(Interrupt::GamePak)
        } else {
            None
        }
    }

    /// The bit of the source in a request mask: `1 << index`.
    pub open spec fn spec_mask(self) -> u16 {
        match self {
            Interrupt::LCD_VBlank => 0x0001,
            Interrupt::LCD_HBlank => 0x0002,
            Interrupt::LCD_VCounterMatch => 0x0004,
            Interrupt::Timer0_Overflow => 0x0008,
            Interrupt::Timer1_Overflow => 0x0010,
            Interrupt::Timer2_Overflow => 0x0020,
            Interrupt::Timer3_Overflow => 0x0040,
            Interrupt::SerialCommunication => 0x0080,
            Interrupt::DMA0 => 0x0100,
            Interrupt::DMA1 => 0x0200,
            Interrupt::DMA2 => 0x0400,
            Interrupt::DMA3 => 0x0800,
            Interrupt::Keypad => 0x1000,
            Interrupt::GamePak => 0x2000,
        }
    }

    pub fn index(&self) -> (r: usize)
        ensures
            r == self.spec_index(),
            r < 14,
    {
        match self {
            Interrupt::LCD_VBlank => 0,
            Interrupt::LCD_HBlank => 1,
            Interrupt::LCD_VCounterMatch => 2,
            Interrupt::Timer0_Overflow => 3,
            Interrupt::Timer1_Overflow => 4,
            Interrupt::Timer2_Overflow => 5,
            Interrupt::Timer3_Overflow => 6,
            Interrupt::SerialCommunication => 7,
            Interrupt::DMA0 => 8,
            Interrupt::DMA1 => 9,
            Interrupt::DMA2 => 10,
            Interrupt::DMA3 => 11,
            Interrupt::Keypad => 12,
            Interrupt::GamePak => 13,
        }
    }

    pub fn from_index(index: usize) -> (r: Option<Interrupt>)
        ensures
            r == Interrupt::spec_from_index(index),
            r is Some <==> index < 14,
            r matches Some(i) ==> i.spec_index() == index,
    {
        if index == 0 {
            Some(Interrupt::LCD_VBlank)
        } else if index == 1 {
            Some(Interrupt::LCD_HBlank)
        } else if index == 2 {
            Some(Interrupt::LCD_VCounterMatch)
        } else if index == 3 {
            Some(Interrupt::Timer0_Overflow)
        } else if index == 4 {
            Some(Interrupt::Timer1_Overflow)
        } else if index == 5 {
            Some(Interrupt::Timer2_Overflow)
        } else if index == 6 {
            Some(Interrupt::Timer3_Overflow)
        } else if index == 7 {
            Some(Interrupt::SerialCommunication)
        } else if index == 8 {
            Some(Interrupt::DMA0)
        } else if index == 9 {
            Some(Interrupt::DMA1)
        } else if index == 10 {
            Some(Interrupt::DMA2)
        } else if index == 11 {
            Some(Interrupt::DMA3)
        } else if index == 12 {
            Some(Interrupt::Keypad)
        } else if index == 13 {
            Some(Interrupt::GamePak)
        } else {
            None
        }
    }

    pub fn mask(&self) -> (r: u16)
        ensures
            r == self.spec_mask(),
    {
        match self {
            Interrupt::LCD_VBlank => 0x0001,
            Interrupt::LCD_HBlank => 0x0002,
            Interrupt::LCD_VCounterMatch => 0x0004,
            Interrupt::Timer0_Overflow => 0x0008,
            Interrupt::Timer1_Overflow => 0x0010,
            Interrupt::Timer2_Overflow => 0x0020,
            Interrupt::Timer3_Overflow => 0x0040,
            Interrupt::SerialCommunication => 0x0080,
            Interrupt::DMA0 => 0x0100,
            Interrupt::DMA1 => 0x0200,
            Interrupt::DMA2 => 0x0400,
            Interrupt::DMA3 => 0x0800,
            Interrupt::Keypad => 0x1000,
            Interrupt::GamePak => 0x2000,
        }
    }
}

/// A set of interrupt sources, one bit each.
#[derive(Debug, Clone, Copy, PartialEq, Eq, Structural)]
pub struct IrqBitmask(pub u16);

impl IrqBitmask {
    /// The mask with the bit of `irq` set as well.
    pub open spec fn with_irq(self, irq: Interrupt) -> IrqBitmask {
        IrqBitmask(self.0 | irq.spec_mask())
    }

    /// The mask with the bit of `irq` set as well, if `raise` holds.
    pub open spec fn with_irq_if(self, raise: bool, irq: Interrupt) -> IrqBitmask {
        if raise {
            self.with_irq(irq)
        } else {
            self
        }
    }

    pub fn add_irq(&mut self, irq: Interrupt)
        ensures
            *final(self) == old(self).with_irq(irq),
    {
        self.0 = self.0 | irq.mask();
    }
}

#[derive(Debug, Clone, Copy, PartialEq, Eq, Structural)]
pub struct InterruptController {
    /// IME: nothing is delivered while it is clear.
    pub interrupt_master_enable: bool,
    /// IE: the sources that may interrupt.
    pub interrupt_enable: IrqBitmask,
    /// IF: the sources that have asked and were not acknowledged yet.
    pub interrupt_flags: IrqBitmask,
}

impl InterruptController {
    /// An interrupt is due: the master enable is set and some source both
    /// has asked and is enabled.
    pub open spec fn spec_irq_pending(self) -> bool {
        self.interrupt_master_enable && (self.interrupt_enable.0 & self.interrupt_flags.0) != 0
    }

    /// The controller after the sources in `flags` have asked.
    pub open spec fn with_requests(self, flags: IrqBitmask) -> InterruptController {
        InterruptController {
            interrupt_flags: IrqBitmask(self.interrupt_flags.0 | flags.0),
            ..self
        }
    }

    /// The controller after power-on: nothing enabled, nothing asked.
    pub open spec fn spec_new() -> InterruptController {
        InterruptController {
            interrupt_master_enable: false,
            interrupt_enable: IrqBitmask(0),
            interrupt_flags: IrqBitmask(0),
        }
    }

    pub fn new() -> (r: InterruptController)
        ensures
            r == InterruptController::spec_new(),
    {
        InterruptController {
            interrupt_master_enable: false,
            interrupt_enable: IrqBitmask(0),
            interrupt_flags: IrqBitmask(0),
        }
    }

    /// Records the requests in `flags` in IF.
    pub fn request_irqs(&mut self, flags: IrqBitmask)
        ensures
            *final(self) == old(self).with_requests(flags),
    {
        self.interrupt_flags.0 = self.interrupt_flags.0 | flags.0;
    }

    pub fn irq_pending(&self) -> (r: bool)
        ensures
            r == self.spec_irq_pending(),
    {
        self.interrupt_master_enable && (self.interrupt_enable.0 & self.interrupt_flags.0) != 0
    }
}

} // verus!
