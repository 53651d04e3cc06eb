//! An ARM7TDMI execution core with the memory bus, video timing, DMA and
//! interrupt logic of a Game Boy Advance.
//!
//! Every function carries a contract over a mathematical model of the
//! machine, and the contracts are machine-checked:
//!
//! * [`arm7tdmi`] holds the processor: status registers, the banked register
//!   file, barrel shifter and ALU, the decoder of ARM instruction words with
//!   its dispatch table, one executor for each instruction format, and the
//!   step that fetches and executes one instruction.
//! * [`sysbus`] puts every memory and the I/O area of [`ioregs`] behind one
//!   address space.
//! * [`gpu`], [`dma`], [`timer`] and [`interrupt`] are the devices.
//! * [`gba`] ties them together: one instruction, then timers, video unit,
//!   DMA and interrupts, frame after frame.

pub mod bits;
pub mod memory;

pub mod arm7tdmi;
pub mod dma;
pub mod gba;
pub mod gpu;
pub mod interrupt;
pub mod ioregs;
pub mod palette;
pub mod sysbus;
pub mod timer;
