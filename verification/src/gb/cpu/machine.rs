//! The state that an instruction acts on, as a mathematical value: the
//! register file and the 65 536 bytes of memory.

use vstd::prelude::*;
use crate::gb::bus::{word, Bus};
use crate::gb::cpu::operand::{Address, Operand16, Operand8};
use crate::gb::cpu::register::{Register16, Registers};
use crate::gb::ram::{Ram, RAM_SIZE};

verus! {

/// The registers and the memory at one moment.
pub struct Machine {
    pub reg: Registers,
    pub mem: Seq<u8>,
}

/// The machine made of a register file and the contents of a RAM.
pub open spec fn state(reg: Registers, mem: Seq<u8>) -> Machine {
    Machine { reg, mem }
}

impl Machine {
    /// Whether the memory has a byte for every address.
    pub open spec fn wf(self) -> bool {
        self.mem.len() == RAM_SIZE
    }

    /// The byte that follows the opcode: the byte at PC + 1.
    pub open spec fn imm8(self) -> u8 {
        Ram::spec_read8(self.mem, self.reg.pc.wrapping_add(1))
    }

    /// The word that follows the opcode: low byte at PC + 1, high byte at
    /// PC + 2.
    pub open spec fn imm16(self) -> u16 {
        Ram::spec_read16(self.mem, self.reg.pc.wrapping_add(1))
    }

    /// The address that `at` designates.
    pub open spec fn address(self, at: Address) -> u16 {
        match at {
            Address::BC => self.reg.spec_get16(Register16::BC),
            Address::DE => self.reg.spec_get16(Register16::DE),
            Address::HL => self.reg.spec_get16(Register16::HL),
            Address::HighC => word(self.reg.c, 0xFF),
            Address::HighImm => word(self.imm8(), 0xFF),
            Address::Imm16 => self.imm16(),
        }
    }

    /// The byte that operand `src` stands for.
    pub open spec fn read8(self, src: Operand8) -> u8 {
        match src {
            Operand8::Register(r) => self.reg.spec_get8(r),
            Operand8::Memory(at) => Ram::spec_read8(self.mem, self.address(at)),
            Operand8::Immediate => self.imm8(),
        }
    }

    /// The state after `v` was stored in operand `dst`. An immediate is no
    /// place to store to: the state stays as it is.
    pub open spec fn write8(self, dst: Operand8, v: u8) -> Machine {
        match dst {
            Operand8::Register(r) => Machine { reg: self.reg.spec_set8(r, v), ..self },
            Operand8::Memory(at) => Machine {
                mem: Ram::spec_write8(self.mem, self.address(at), v),
                ..self
            },
            Operand8::Immediate => self,
        }
    }

    /// The word that operand `src` stands for.
    pub open spec fn read16(self, src: Operand16) -> u16 {
        match src {
            Operand16::Register(rr) => self.reg.spec_get16(rr),
            Operand16::Immediate => self.imm16(),
        }
    }

    /// The state after `v` was stored in operand `dst`. An immediate is no
    /// place to store to: the state stays as it is.
    pub open spec fn write16(self, dst: Operand16, v: u16) -> Machine {
        match dst {
            Operand16::Register(rr) => Machine { reg: self.reg.spec_set16(rr, v), ..self },
            Operand16::Immediate => self,
        }
    }
}

} // verus!
