//! A 6502 processor core with its memory bus, opcode table and execution tracer,
//! together with a few of the console's peripheral building blocks.

pub mod opcodes;
pub mod bus;
pub mod cpu;
pub mod trace;
pub mod ppu_address;
pub mod apu;
pub mod screen;
pub mod cartridge;
