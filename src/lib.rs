//! The processor and memory bus of a 6502-based game console: the
//! instruction table, the addressing modes, the status register, the
//! instruction semantics and the mirrored address decoding of the bus.
pub mod apu;
pub mod bus;
pub mod cpu;
pub mod nes;
pub mod opcode;
pub mod ppu;
pub mod semantics;
pub mod status;
pub mod theorems;
