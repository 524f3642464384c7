//! The memory management unit: the bus as the processor sees it.
//!
//! | addresses         | device                                   |
//! |-------------------|------------------------------------------|
//! | `0x0000..=0x7FFF` | cartridge ROM                            |
//! | `0x8000..=0x9FFF` | RAM (video)                              |
//! | `0xA000..=0xBFFF` | cartridge external RAM                   |
//! | `0xC000..=0xDFFF` | RAM (work)                               |
//! | `0xE000..=0xFDFF` | the RAM cell `0x2000` below: the echo    |
//! | `0xFE00..=0xFFFF` | RAM (OAM, I/O registers, high RAM, IE)   |

use vstd::prelude::*;
use crate::gb::bus::{high_byte, low_byte, make_word, split_word, word, Bus};
use crate::gb::cartridge::{
    in_cartridge, in_rom, Cartridge, CartridgeView, EXTERNAL_RAM_SIZE, ROM_SIZE,
};
use crate::gb::ram::{zeros, Ram, RAM_SIZE};

verus! {

/// The bus with its two devices: the RAM array and the cartridge.
pub struct Mmu {
    array: Ram,
    cart: Cartridge,
}

/// What the bus holds: the bytes of the RAM array and the cartridge.
pub struct MmuView {
    pub ram: Seq<u8>,
    pub cart: CartridgeView,
}

impl View for Mmu {
    type V = MmuView;

    closed spec fn view(&self) -> MmuView {
        MmuView { ram: self.array@, cart: self.cart@ }
    }
}

/// Whether `addr` lies in the echo of work RAM.
pub open spec fn in_echo(addr: u16) -> bool {
    0xE000 <= addr <= 0xFDFF
}

/// The cell of the RAM array that `addr`, an address outside the cartridge
/// windows, leads to: for an address in the echo the cell `0x2000` below,
/// else the cell at `addr`.
pub open spec fn ram_cell(addr: u16) -> int {
    if in_echo(addr) {
        addr - 0x2000
    } else {
        addr as int
    }
}

/// The byte that the hardware leaves in the RAM cell `addr` when the boot
/// program has run: the defaults of the sound, LCD and palette registers,
/// the mark at `0xFF50` that the boot program is unmapped, and zero
/// elsewhere.
pub open spec fn boot_byte(addr: u16) -> u8 {
    match addr {
        0xFF05 => 0x00,
        0xFF06 => 0x00,
        0xFF07 => 0x00,
        0xFF10 => 0x80,
        0xFF11 => 0xBF,
        0xFF12 => 0xF3,
        0xFF14 => 0xBF,
        0xFF16 => 0x3F,
        0xFF17 => 0x00,
        0xFF19 => 0xBF,
        0xFF1A => 0x7F,
        0xFF1B => 0xFF,
        0xFF1C => 0x9F,
        0xFF1E => 0xBF,
        0xFF20 => 0xFF,
        0xFF21 => 0x00,
        0xFF22 => 0x00,
        0xFF23 => 0xBF,
        0xFF24 => 0x77,
        0xFF25 => 0xF3,
        0xFF26 => 0xF1,
        0xFF40 => 0x91,
        0xFF42 => 0x00,
        0xFF43 => 0x00,
        0xFF45 => 0x00,
        0xFF47 => 0xFC,
        0xFF48 => 0xFF,
        0xFF49 => 0xFF,
        0xFF4A => 0x00,
        0xFF4B => 0x00,
        0xFF50 => 0x01,
        0xFFFF => 0x00,
        _ => 0x00,
    }
}

/// The RAM array when the boot program has run.
pub open spec fn boot_image() -> Seq<u8> {
    Seq::new(RAM_SIZE as nat, |i: int| boot_byte(i as u16))
}

/// The address `i` bytes after `offset`, modulo 2^16.
pub open spec fn load_address(offset: u16, i: int) -> u16 {
    ((offset + i) % 0x1_0000) as u16
}

impl Mmu {
    /// The bus after the bytes of `data` were written one after the other,
    /// the first at `offset`, each next one at the next address, and the
    /// one after `0xFFFF` at `0x0000`.
    pub open spec fn spec_load(state: MmuView, offset: u16, data: Seq<u8>) -> MmuView
        decreases data.len(),
    {
        if data.len() == 0 {
            state
        } else {
            Self::spec_write8(
                Self::spec_load(state, offset, data.drop_last()),
                load_address(offset, data.len() - 1),
                data.last(),
            )
        }
    }

    /// The word read at `addr`: two byte reads, low byte first, the second
    /// at the next address, which for `0xFFFF` is `0x0000`.
    pub open spec fn spec_read16(state: MmuView, addr: u16) -> u16 {
        word(Self::spec_read8(state, addr), Self::spec_read8(state, addr.wrapping_add(1)))
    }

    /// The bus after word `data` was written at `addr`: two byte writes,
    /// low byte first.
    pub open spec fn spec_write16(state: MmuView, addr: u16, data: u16) -> MmuView {
        Self::spec_write8(
            Self::spec_write8(state, addr, low_byte(data)),
            addr.wrapping_add(1),
            high_byte(data),
        )
    }

    /// A bus with zeroed RAM and a blank cartridge: its ROM and its
    /// external RAM read as zero.
    pub fn new() -> (mmu: Mmu)
        ensures
            mmu.wf(),
            mmu@.ram == zeros(RAM_SIZE as nat),
            mmu@.cart.rom == zeros(ROM_SIZE as nat),
            mmu@.cart.ram == zeros(EXTERNAL_RAM_SIZE as nat),
    {
        let mmu = Mmu {
            array: Ram::new(vec![0x00; RAM_SIZE]),
            cart: Cartridge::new(vec![0x00; ROM_SIZE]),
        };
        assert(mmu@.ram =~= zeros(RAM_SIZE as nat));
        assert(mmu@.cart.rom =~= zeros(ROM_SIZE as nat));
        mmu
    }

    /// Writes the bytes of `data` through the bus, the first at `offset`.
    pub fn load(&mut self, offset: u16, data: Vec<u8>)
        requires
            old(self).wf(),
        ensures
            final(self).wf(),
            final(self)@ == Self::spec_load(old(self)@, offset, data@),
    {
        let mut addr = offset;
        let mut i: usize = 0;
        while i < data.len()
            invariant
                i <= data.len(),
                self.wf(),
                addr == load_address(offset, i as int),
                self@ == Self::spec_load(old(self)@, offset, data@.take(i as int)),
            decreases data.len() - i,
        {
            proof {
                assert(data@.take(i + 1).drop_last() =~= data@.take(i as int));
            }
            self.write8(addr, data[i]);
            addr = addr.wrapping_add(1);
            i += 1;
        }
        proof {
            assert(data@.take(i as int) =~= data@);
        }
    }

    /// Puts `cart` in place of the cartridge.
    pub fn load_cartridge(&mut self, cart: Cartridge)
        requires
            old(self).wf(),
            cart.wf(),
        ensures
            final(self).wf(),
            final(self)@.ram == old(self)@.ram,
            final(self)@.cart == cart@,
    {
        self.cart = cart;
    }

    /// A copy of the RAM array, the byte of address 0 first.
    pub fn dump(&self) -> (bytes: Vec<u8>)
        ensures
            bytes@ == self@.ram,
    {
        self.array.dump()
    }

    /// Puts the RAM array in the state that the boot program leaves it in.
    /// The cartridge stays as it is.
    pub fn simulate_bootloader(&mut self)
        requires
            old(self).wf(),
        ensures
            final(self).wf(),
            final(self)@.ram == boot_image(),
            final(self)@.cart == old(self)@.cart,
    {
        self.array = Ram::new(vec![0x00; RAM_SIZE]);
        self.array.write8(0xFF05, 0x00);
        self.array.write8(0xFF06, 0x00);
        self.array.write8(0xFF07, 0x00);
        self.array.write8(0xFF10, 0x80);
        self.array.write8(0xFF11, 0xBF);
        self.array.write8(0xFF12, 0xF3);
        self.array.write8(0xFF14, 0xBF);
        self.array.write8(0xFF16, 0x3F);
        self.array.write8(0xFF17, 0x00);
        self.array.write8(0xFF19, 0xBF);
        self.array.write8(0xFF1A, 0x7F);
        self.array.write8(0xFF1B, 0xFF);
        self.array.write8(0xFF1C, 0x9F);
        self.array.write8(0xFF1E, 0xBF);
        self.array.write8(0xFF20, 0xFF);
        self.array.write8(0xFF21, 0x00);
        self.array.write8(0xFF22, 0x00);
        self.array.write8(0xFF23, 0xBF);
        self.array.write8(0xFF24, 0x77);
        self.array.write8(0xFF25, 0xF3);
        self.array.write8(0xFF26, 0xF1);
        self.array.write8(0xFF40, 0x91);
        self.array.write8(0xFF42, 0x00);
        self.array.write8(0xFF43, 0x00);
        self.array.write8(0xFF45, 0x00);
        self.array.write8(0xFF47, 0xFC);
        self.array.write8(0xFF48, 0xFF);
        self.array.write8(0xFF49, 0xFF);
        self.array.write8(0xFF4A, 0x00);
        self.array.write8(0xFF4B, 0x00);
        self.array.write8(0xFFFF, 0x00);

        self.array.write8(0xFF50, 0x01);
        assert(self.array@ =~= boot_image());
    }
}

impl Bus for Mmu {
    open spec fn wf(&self) -> bool {
        &&& self@.ram.len() == RAM_SIZE
        &&& self@.cart.rom.len() == ROM_SIZE
        &&& self@.cart.ram.len() == EXTERNAL_RAM_SIZE
    }

    open spec fn spec_read8(state: MmuView, addr: u16) -> u8 {
        if in_cartridge(addr) {
            Cartridge::spec_read(state.cart, addr)
        } else {
            state.ram[ram_cell(addr)]
        }
    }

    open spec fn spec_write8(state: MmuView, addr: u16, data: u8) -> MmuView {
        if in_cartridge(addr) {
            MmuView { cart: Cartridge::spec_write(state.cart, addr, data), ..state }
        } else {
            MmuView { ram: state.ram.update(ram_cell(addr), data), ..state }
        }
    }

    fn read8(&self, addr: u16) -> (data: u8) {
        match addr {
            0x0000..=0x7FFF => self.cart.read(addr),
            0xA000..=0xBFFF => self.cart.read(addr),
            // The echo of 0xC000..=0xDDFF.
            0xE000..=0xFDFF => self.array.read8(addr - 0x2000),
            _ => self.array.read8(addr),
        }
    }

    fn read16(&self, addr: u16) -> (data: u16)
        ensures
            data == Mmu::spec_read16(self@, addr),
    {
        let lo = self.read8(addr);
        let hi = self.read8(addr.wrapping_add(1));
        make_word(lo, hi)
    }

    fn write8(&mut self, addr: u16, data: u8) {
        match addr {
            0x0000..=0x7FFF => self.cart.write(addr, data),
            0xA000..=0xBFFF => self.cart.write(addr, data),
            // The echo of 0xC000..=0xDDFF.
            0xE000..=0xFDFF => self.array.write8(addr - 0x2000, data),
            _ => self.array.write8(addr, data),
        }
    }

    fn write16(&mut self, addr: u16, data: u16)
        ensures
            final(self)@ == Mmu::spec_write16(old(self)@, addr, data),
    {
        let (lo, hi) = split_word(data);
        self.write8(addr, lo);
        self.write8(addr.wrapping_add(1), hi);
    }
}

/// The echo shows work RAM. In every state of the bus, and so after any
/// write, a read at an address of the echo gives the byte that a read
/// `0x2000` below gives, and a write there leads to the state that the
/// write `0x2000` below leads to.
pub proof fn lemma_echo_mirrors_work_ram(state: MmuView, addr: u16, data: u8)
    requires
        in_echo(addr),
    ensures
        Mmu::spec_read8(state, addr) == Mmu::spec_read8(state, (addr - 0x2000) as u16),
        Mmu::spec_write8(state, addr, data) == Mmu::spec_write8(
            state,
            (addr - 0x2000) as u16,
            data,
        ),
        forall|at: u16, byte: u8|
            Mmu::spec_read8(#[trigger] Mmu::spec_write8(state, at, byte), addr) == Mmu::spec_read8(
                Mmu::spec_write8(state, at, byte),
                (addr - 0x2000) as u16,
            ),
{
}

/// A byte written outside the ROM is the byte read back from the same
/// address.
pub proof fn lemma_byte_round_trip(state: MmuView, addr: u16, data: u8)
    requires
        state.ram.len() == RAM_SIZE,
        state.cart.ram.len() == EXTERNAL_RAM_SIZE,
        !in_rom(addr),
    ensures
        Mmu::spec_read8(Mmu::spec_write8(state, addr, data), addr) == data,
{
}

/// A word written is the word read back from the same address, provided
/// neither of its two bytes falls in the ROM, which takes no writes. That
/// leaves out the ROM addresses and `0xFFFF`, whose high byte falls on
/// `0x0000`.
pub proof fn lemma_word_round_trip(state: MmuView, addr: u16, data: u16)
    requires
        state.ram.len() == RAM_SIZE,
        state.cart.ram.len() == EXTERNAL_RAM_SIZE,
        !in_rom(addr),
        !in_rom(addr.wrapping_add(1)),
    ensures
        Mmu::spec_read16(Mmu::spec_write16(state, addr, data), addr) == data,
{
}

} // verus!
