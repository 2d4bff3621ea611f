//! Core of a cycle-accurate DMG (original Game Boy) emulator: the register
//! file with its packed flag register and word-register aliases, the
//! instruction schema with its size and machine-cycle cost functions, and the
//! memory-mapped bus that interleaves every access with one machine-cycle
//! tick driving the DMA engine, PPU, timer, joypad latch and interrupt
//! controller.

pub mod instruction;
pub mod interrupt;
pub mod joypad;
pub mod memory_map;
pub mod ppu;
pub mod register;
pub mod timer;
