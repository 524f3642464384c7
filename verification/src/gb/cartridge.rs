//! The cartridge port: what the bus sees of a cartridge.
//!
//! The cartridge answers in two windows of the address space: the ROM at
//! `0x0000` to `0x7FFF` and the external RAM at `0xA000` to `0xBFFF`. This
//! cartridge has no bank controller: its ROM is the first 32 KiB of the
//! image, a write to the ROM window changes nothing, and the external RAM
//! is one bank of 8 KiB.

use vstd::prelude::*;
use crate::gb::ram::{fit, fitted, zeros};

verus! {

/// The size of the ROM window.
pub const ROM_SIZE: usize = 0x8000;

/// The size of the external RAM window.
pub const EXTERNAL_RAM_SIZE: usize = 0x2000;

/// The first address of the external RAM window.
pub const EXTERNAL_RAM_BASE: u16 = 0xA000;

/// A cartridge.
pub struct Cartridge {
    rom: Vec<u8>,
    ram: Vec<u8>,
}

/// What a cartridge holds: the bytes of its ROM window and the bytes of its
/// external RAM.
pub struct CartridgeView {
    pub rom: Seq<u8>,
    pub ram: Seq<u8>,
}

impl View for Cartridge {
    type V = CartridgeView;

    closed spec fn view(&self) -> CartridgeView {
        CartridgeView { rom: self.rom@, ram: self.ram@ }
    }
}

/// Whether `addr` lies in the ROM window.
pub open spec fn in_rom(addr: u16) -> bool {
    addr <= 0x7FFF
}

/// Whether `addr` lies in the external RAM window.
pub open spec fn in_external_ram(addr: u16) -> bool {
    0xA000 <= addr <= 0xBFFF
}

/// Whether `addr` lies in one of the two windows of the cartridge.
pub open spec fn in_cartridge(addr: u16) -> bool {
    in_rom(addr) || in_external_ram(addr)
}

impl Cartridge {
    /// Whether both windows have their size.
    pub open spec fn wf(&self) -> bool {
        &&& self@.rom.len() == ROM_SIZE
        &&& self@.ram.len() == EXTERNAL_RAM_SIZE
    }

    /// The byte read at `addr`, an address in one of the two windows.
    pub open spec fn spec_read(state: CartridgeView, addr: u16) -> u8 {
        if in_rom(addr) {
            state.rom[addr as int]
        } else {
            state.ram[addr - EXTERNAL_RAM_BASE]
        }
    }

    /// The cartridge after `data` was written at `addr`, an address in one
    /// of the two windows: the external RAM takes the byte, the ROM does
    /// not.
    pub open spec fn spec_write(state: CartridgeView, addr: u16, data: u8) -> CartridgeView {
        if in_external_ram(addr) {
            CartridgeView { ram: state.ram.update(addr - EXTERNAL_RAM_BASE, data), ..state }
        } else {
            state
        }
    }

    /// A cartridge with the ROM image `image` and zeroed external RAM. The
    /// ROM window shows the first 32 KiB of the image, and zeros where the
    /// image is shorter.
    pub fn new(image: Vec<u8>) -> (cart: Cartridge)
        ensures
            cart.wf(),
            cart@.rom == fitted(image@, ROM_SIZE as nat),
            cart@.ram == zeros(EXTERNAL_RAM_SIZE as nat),
    {
        let ram = vec![0u8; EXTERNAL_RAM_SIZE];
        assert(ram@ =~= zeros(EXTERNAL_RAM_SIZE as nat));
        Cartridge { rom: fit(image, ROM_SIZE), ram }
    }

    /// Reads the byte at `addr`.
    pub fn read(&self, addr: u16) -> (data: u8)
        requires
            self.wf(),
            in_cartridge(addr),
        ensures
            data == Self::spec_read(self@, addr),
    {
        if addr < EXTERNAL_RAM_BASE {
            self.rom[addr as usize]
        } else {
            self.ram[(addr - EXTERNAL_RAM_BASE) as usize]
        }
    }

    /// Writes `data` at `addr`.
    pub fn write(&mut self, addr: u16, data: u8)
        requires
            old(self).wf(),
            in_cartridge(addr),
        ensures
            final(self).wf(),
            final(self)@ == Self::spec_write(old(self)@, addr, data),
    {
        if addr >= EXTERNAL_RAM_BASE {
            self.ram.set((addr - EXTERNAL_RAM_BASE) as usize, data);
        }
    }
}

} // verus!
