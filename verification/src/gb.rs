//! The emulated machine, component by component.

pub mod bus;
pub mod cartridge;
pub mod cpu;
pub mod mmu;
pub mod ppu;
pub mod ram;
