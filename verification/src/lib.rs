//! A 6502 CPU core for an NES emulator, with an iNES cartridge loader.

pub mod cartridge;
pub mod cpu;
