//! Operands: the places an instruction reads from and writes to.
//!
//! An instruction kernel is written once for every addressing mode. What it
//! can do with an operand is a capability: `Readable8`, `Writable8`,
//! `Readable16`, `Writable16`. Each operand names the addressing mode it
//! stands for as an `Operand8` or `Operand16`, and the contracts are stated
//! over those.
//!
//! Reading an operand changes nothing, the program counter included.

use vstd::prelude::*;
use crate::gb::bus::{make_word, Bus};
use crate::gb::cpu::machine::{state, Machine};
use crate::gb::cpu::register::{Register16, Register8, Registers};
use crate::gb::ram::Ram;

verus! {

/// A memory cell, named by where its address comes from.
#[derive(Clone, Copy, Debug, PartialEq, Eq, Structural)]
pub enum Address {
    /// The cell at the address in BC.
    BC,
    /// The cell at the address in DE.
    DE,
    /// The cell at the address in HL.
    HL,
    /// The cell at `0xFF00 + C`.
    HighC,
    /// The cell at `0xFF00 +` the byte that follows the opcode.
    HighImm,
    /// The cell at the address that follows the opcode.
    Imm16,
}

/// The byte that follows the opcode.
#[derive(Clone, Copy, Debug, PartialEq, Eq, Structural)]
pub struct Immediate8;

/// The little-endian word that follows the opcode.
#[derive(Clone, Copy, Debug, PartialEq, Eq, Structural)]
pub struct Immediate16;

/// An 8-bit addressing mode.
#[derive(Clone, Copy, Debug, PartialEq, Eq, Structural)]
pub enum Operand8 {
    Register(Register8),
    Memory(Address),
    Immediate,
}

/// A 16-bit addressing mode.
#[derive(Clone, Copy, Debug, PartialEq, Eq, Structural)]
pub enum Operand16 {
    Register(Register16),
    Immediate,
}

/// An operand that a byte can be read from.
pub trait Readable8 {
    /// The addressing mode that the operand stands for.
    spec fn operand(&self) -> Operand8;

    /// Reads the byte that the operand stands for.
    fn read(&self, reg: &Registers, ram: &Ram) -> (v: u8)
        requires
            ram.wf(),
        ensures
            v == state(*reg, ram@).read8(self.operand()),
    ;
}

/// An operand that a byte can be written to.
pub trait Writable8: Readable8 {
    /// Stores `v` in the place that the operand stands for.
    fn write(&self, reg: &mut Registers, ram: &mut Ram, v: u8)
        requires
            old(ram).wf(),
        ensures
            final(ram).wf(),
            state(*final(reg), final(ram)@) == state(*old(reg), old(ram)@).write8(
                self.operand(),
                v,
            ),
    ;
}

/// An operand that a word can be read from.
pub trait Readable16 {
    /// The addressing mode that the operand stands for.
    spec fn operand(&self) -> Operand16;

    /// Reads the word that the operand stands for.
    fn read(&self, reg: &Registers, ram: &Ram) -> (v: u16)
        requires
            ram.wf(),
        ensures
            v == state(*reg, ram@).read16(self.operand()),
    ;
}

/// An operand that a word can be written to.
pub trait Writable16: Readable16 {
    /// Stores `v` in the place that the operand stands for.
    fn write(&self, reg: &mut Registers, ram: &mut Ram, v: u16)
        requires
            old(ram).wf(),
        ensures
            final(ram).wf(),
            state(*final(reg), final(ram)@) == state(*old(reg), old(ram)@).write16(
                self.operand(),
                v,
            ),
    ;
}

impl Address {
    /// The address of the cell.
    pub fn resolve(&self, reg: &Registers, ram: &Ram) -> (addr: u16)
        requires
            ram.wf(),
        ensures
            addr == state(*reg, ram@).address(*self),
    {
        match self {
            Address::BC => reg.get16(Register16::BC),
            Address::DE => reg.get16(Register16::DE),
            Address::HL => reg.get16(Register16::HL),
            Address::HighC => make_word(reg.c, 0xFF),
            Address::HighImm => make_word(ram.read8(reg.pc.wrapping_add(1)), 0xFF),
            Address::Imm16 => ram.read16(reg.pc.wrapping_add(1)),
        }
    }
}

impl Readable8 for Register8 {
    open spec fn operand(&self) -> Operand8 {
        Operand8::Register(*self)
    }

    fn read(&self, reg: &Registers, ram: &Ram) -> (v: u8) {
        reg.get8(*self)
    }
}

impl Writable8 for Register8 {
    fn write(&self, reg: &mut Registers, ram: &mut Ram, v: u8) {
        reg.set8(*self, v);
    }
}

impl Readable8 for Address {
    open spec fn operand(&self) -> Operand8 {
        Operand8::Memory(*self)
    }

    fn read(&self, reg: &Registers, ram: &Ram) -> (v: u8) {
        ram.read8(self.resolve(reg, ram))
    }
}

impl Writable8 for Address {
    fn write(&self, reg: &mut Registers, ram: &mut Ram, v: u8) {
        let addr = self.resolve(reg, ram);
        ram.write8(addr, v);
    }
}

impl Readable8 for Immediate8 {
    open spec fn operand(&self) -> Operand8 {
        Operand8::Immediate
    }

    fn read(&self, reg: &Registers, ram: &Ram) -> (v: u8) {
        ram.read8(reg.pc.wrapping_add(1))
    }
}

impl Readable16 for Register16 {
    open spec fn operand(&self) -> Operand16 {
        Operand16::Register(*self)
    }

    fn read(&self, reg: &Registers, ram: &Ram) -> (v: u16) {
        reg.get16(*self)
    }
}

impl Writable16 for Register16 {
    fn write(&self, reg: &mut Registers, ram: &mut Ram, v: u16) {
        reg.set16(*self, v);
    }
}

impl Readable16 for Immediate16 {
    open spec fn operand(&self) -> Operand16 {
        Operand16::Immediate
    }

    fn read(&self, reg: &Registers, ram: &Ram) -> (v: u16) {
        ram.read16(reg.pc.wrapping_add(1))
    }
}

} // verus!
