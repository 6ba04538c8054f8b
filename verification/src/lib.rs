//! The core of an NES emulator: the cartridge and its mappers, the two buses,
//! the work RAM and a cycle-stepped 6502 CPU.

pub mod bus;
pub mod cartrige;
pub mod ram;
pub mod cpu;
pub mod state;
