//! The registers of the picture processing unit, `0xFF40` to `0xFF4B`, and
//! the bit fields of the LCD status register.
//!
//! The LCD status byte holds the mode in bits 1 and 0, the LYC coincidence
//! flag in bit 2, and in bits 3 to 6 the interrupt enables for horizontal
//! blank, vertical blank, OAM read and LYC coincidence.

use vstd::prelude::*;
use crate::gb::bus::Bus;
use crate::gb::ppu::Mode;

verus! {

/// The registers of the picture processing unit.
#[derive(Clone, Copy, Debug, PartialEq, Eq, Structural)]
pub enum Register {
    /// LCD control.
    LCDC,
    /// LCD status.
    STAT,
    /// Scroll Y.
    SCY,
    /// Scroll X.
    SCX,
    /// The line being drawn.
    LY,
    /// The line to compare LY with.
    LYC,
    /// DMA transfer and start address.
    DMA,
    /// Background palette.
    BGP,
    /// Object palette 0.
    OBP0,
    /// Object palette 1.
    OBP1,
    /// Window Y position.
    WY,
    /// Window X position plus 7.
    WX,
}

impl Register {
    /// The address of the register on the bus.
    pub open spec fn spec_address(self) -> u16 {
        match self {
            Register::LCDC => 0xFF40,
            Register::STAT => 0xFF41,
            Register::SCY => 0xFF42,
            Register::SCX => 0xFF43,
            Register::LY => 0xFF44,
            Register::LYC => 0xFF45,
            Register::DMA => 0xFF46,
            Register::BGP => 0xFF47,
            Register::OBP0 => 0xFF48,
            Register::OBP1 => 0xFF49,
            Register::WY => 0xFF4A,
            Register::WX => 0xFF4B,
        }
    }

    /// Reads the register from the bus. The bus stays as it is.
    pub fn read<B: Bus>(&self, bus: &mut B) -> (v: u8)
        requires
            old(bus).wf(),
        ensures
            final(bus).wf(),
            final(bus)@ == old(bus)@,
            v == B::spec_read8(old(bus)@, self.spec_address()),
    {
        bus.read8(self.address())
    }

    /// Writes the register through the bus.
    pub fn write<B: Bus>(&self, bus: &mut B, v: u8)
        requires
            old(bus).wf(),
        ensures
            final(bus).wf(),
            final(bus)@ == B::spec_write8(old(bus)@, self.spec_address(), v),
    {
        bus.write8(self.address(), v);
    }

    /// The address of the register on the bus.
    pub fn address(&self) -> (addr: u16)
        ensures
            addr == self.spec_address(),
            0xFF40 <= addr <= 0xFF4B,
    {
        match *self {
            Register::LCDC => 0xFF40,
            Register::STAT => 0xFF41,
            Register::SCY => 0xFF42,
            Register::SCX => 0xFF43,
            Register::LY => 0xFF44,
            Register::LYC => 0xFF45,
            Register::DMA => 0xFF46,
            Register::BGP => 0xFF47,
            Register::OBP0 => 0xFF48,
            Register::OBP1 => 0xFF49,
            Register::WY => 0xFF4A,
            Register::WX => 0xFF4B,
        }
    }
}

/// The mode that a status byte shows in bits 1 and 0.
pub open spec fn mode_of(stat: u8) -> Mode {
    let bits = stat & 0b0000_0011;
    if bits == 0 {
        Mode::HBlank
    } else if bits == 1 {
        Mode::VBlank
    } else if bits == 2 {
        Mode::OAMRead
    } else {
        Mode::VRAMRead
    }
}

/// The number of a mode.
pub open spec fn mode_bits(mode: Mode) -> u8 {
    match mode {
        Mode::HBlank => 0b00,
        Mode::VBlank => 0b01,
        Mode::OAMRead => 0b10,
        Mode::VRAMRead => 0b11,
    }
}

/// The status byte with bits 1 and 0 replaced by the number of `mode`.
pub open spec fn with_mode(stat: u8, mode: Mode) -> u8 {
    (stat & 0b1111_1100) | mode_bits(mode)
}

/// The status byte with bit 2 set to `v`.
pub open spec fn with_lyc_coincidence(stat: u8, v: bool) -> u8 {
    if v {
        (stat & 0b1111_1011) | 0b0100
    } else {
        stat & 0b1111_1011
    }
}

/// The value of the LCD status register.
#[derive(Copy, Clone)]
pub struct LCDStatus(u8);

impl View for LCDStatus {
    type V = u8;

    closed spec fn view(&self) -> u8 {
        self.0
    }
}

impl LCDStatus {
    /// The status with the byte `v`.
    pub fn new(v: u8) -> (stat: LCDStatus)
        ensures
            stat@ == v,
    {
        LCDStatus(v)
    }

    /// The status as a byte.
    pub fn raw(&self) -> (v: u8)
        ensures
            v == self@,
    {
        self.0
    }

    /// The mode in bits 1 and 0.
    pub fn mode(&self) -> (mode: Mode)
        ensures
            mode == mode_of(self@),
    {
        let raw = self.0;
        let bits = raw & 0b0000_0011;
        assert(bits <= 3) by (bit_vector)
            requires
                bits == raw & 0b0000_0011,
        ;
        match bits {
            0 => Mode::HBlank,
            1 => Mode::VBlank,
            2 => Mode::OAMRead,
            3 => Mode::VRAMRead,
            _ => vstd::pervasive::unreached(),
        }
    }

    /// Replaces the mode and keeps bits 2 to 7.
    pub fn set_mode(&mut self, mode: Mode)
        ensures
            final(self)@ == with_mode(old(self)@, mode),
            mode_of(final(self)@) == mode,
    {
        proof {
            lemma_with_mode(self.0, mode);
        }
        self.0 &= 0b1111_1100;
        self.0 |= match mode {
            Mode::HBlank => 0b00,
            Mode::VBlank => 0b01,
            Mode::OAMRead => 0b10,
            Mode::VRAMRead => 0b11,
        };
    }

    /// Sets or clears the LYC coincidence flag and keeps the other bits.
    pub fn set_lyc_coincidence(&mut self, v: bool)
        ensures
            final(self)@ == with_lyc_coincidence(old(self)@, v),
    {
        self.0 &= 0b1111_1011;
        if v {
            self.0 |= 0b0100;
        }
    }

    /// Whether bit 3 is set: an interrupt on horizontal blank.
    pub fn is_hblank_interrupt_enabled(&self) -> (enabled: bool)
        ensures
            enabled == (self@ & 0b0000_1000 != 0),
    {
        self.0 & 0b0000_1000 != 0
    }

    /// Whether bit 4 is set: an interrupt on vertical blank.
    pub fn is_vblank_interrupt_enabled(&self) -> (enabled: bool)
        ensures
            enabled == (self@ & 0b0001_0000 != 0),
    {
        self.0 & 0b0001_0000 != 0
    }

    /// Whether bit 5 is set: an interrupt on OAM read.
    pub fn is_oam_interrupt_enabled(&self) -> (enabled: bool)
        ensures
            enabled == (self@ & 0b0010_0000 != 0),
    {
        self.0 & 0b0010_0000 != 0
    }

    /// Whether bit 6 is set: an interrupt on LYC coincidence.
    pub fn is_lyc_coincidence_interrupt_enabled(&self) -> (enabled: bool)
        ensures
            enabled == (self@ & 0b0100_0000 != 0),
    {
        self.0 & 0b0100_0000 != 0
    }
}

/// A mode that was set is the mode that is read, and setting the mode
/// changes none of bits 2 to 7.
pub proof fn lemma_with_mode(stat: u8, mode: Mode)
    ensures
        mode_of(with_mode(stat, mode)) == mode,
        with_mode(stat, mode) & 0b1111_1100 == stat & 0b1111_1100,
{
    let bits = mode_bits(mode);
    let next = (stat & 0b1111_1100) | bits;
    assert(next & 0b0000_0011 == bits && next & 0b1111_1100 == stat & 0b1111_1100)
        by (bit_vector)
        requires
            bits <= 3,
            next == (stat & 0b1111_1100) | bits,
    ;
}

/// The mode of a byte is the mode whose number its bits 1 and 0 spell, so
/// a status byte made of a mode's number and any bits 2 to 7 shows that
/// mode.
pub proof fn lemma_mode_bits(stat: u8)
    ensures
        mode_bits(mode_of(stat)) == stat & 0b0000_0011,
        with_mode(stat, mode_of(stat)) == stat,
{
    let bits = stat & 0b0000_0011;
    assert(bits <= 3 && (stat & 0b1111_1100) | bits == stat) by (bit_vector)
        requires
            bits == stat & 0b0000_0011,
    ;
}

/// Setting the LYC coincidence flag sets bit 2 to the given value and
/// changes no other bit.
pub proof fn lemma_with_lyc_coincidence(stat: u8, v: bool)
    ensures
        (with_lyc_coincidence(stat, v) & 0b0000_0100 != 0) == v,
        with_lyc_coincidence(stat, v) & 0b1111_1011 == stat & 0b1111_1011,
        mode_of(with_lyc_coincidence(stat, v)) == mode_of(stat),
{
    let set = (stat & 0b1111_1011) | 0b0100;
    let clear = stat & 0b1111_1011;
    assert(set & 0b0000_0100 != 0 && set & 0b1111_1011 == stat & 0b1111_1011 && set & 0b0000_0011
        == stat & 0b0000_0011) by (bit_vector)
        requires
            set == (stat & 0b1111_1011) | 0b0100,
    ;
    assert(clear & 0b0000_0100 == 0 && clear & 0b1111_1011 == stat & 0b1111_1011 && clear
        & 0b0000_0011 == stat & 0b0000_0011) by (bit_vector)
        requires
            clear == stat & 0b1111_1011,
    ;
}

} // verus!
