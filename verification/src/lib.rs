//! Core of a cycle-stepped emulator for an 8-bit console: CPU interpreter,
//! picture unit, sound unit, cartridge mappers and the bus that joins them.

pub mod apu;
pub mod bus;
pub mod cartridge;
pub mod clock;
pub mod controller;
pub mod cpu;
pub mod mapper;
pub mod memory;
pub mod nes;
pub mod ppu;
pub mod save_state;
