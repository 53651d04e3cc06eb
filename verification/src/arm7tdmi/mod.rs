//! The processor: status registers, register file, datapath, instruction
//! decoding.

pub mod alu;
pub mod arm;
pub mod cpu;
pub mod exception;
pub mod psr;
