//! A cycle-counted MOS 6502 (2A03) core with its memory bus and a
//! scanline-timed picture processing unit, as found in the NES.
pub mod flags;
pub mod ppu;
pub mod bus;
pub mod cartridge;
pub mod opcodes;
pub mod cpu;
pub mod laws;
