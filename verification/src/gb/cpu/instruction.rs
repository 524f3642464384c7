//! The opcode tables: which kernel an opcode runs, on which operands, how
//! many bytes the instruction has and how many cycles it costs.
//!
//! The primary table is stated twice. `decode` reads an opcode by its bit
//! fields, as the instruction set is laid out, and `Instruction` gives
//! each instruction its effect, its length and its cost. `exec` is the
//! table row by row, in four blocks of 64 rows, and is proved to agree with
//! them on all 256 opcodes.
//!
//! In the comments of the table the flags are in the order Z N H C: a
//! letter where the instruction computes the flag, `0` or `1` where it
//! clears or sets it, `-` where it leaves it.

use vstd::prelude::*;
use crate::gb::bus::Bus;
use crate::gb::cpu::machine::{state, Machine};
use crate::gb::cpu::operand::{Address, Immediate16, Immediate8, Operand16, Operand8};
use crate::gb::cpu::processor::{
    adc8, add16, add8, add_sp, and8, call, cp8, dec16, dec8, inc16, inc8, jp, jr, ld16, ld8, or8,
    pop16, push16, ret, rst, sbc8, sub8, timing, undefined, xor8,
};
use crate::gb::cpu::register::{
    lemma_flag_byte_low_nibble, Condition, Register16 as R16, Register8 as R8, Registers,
};
use crate::gb::ram::Ram;

verus! {

/// The eight operations of the arithmetic unit on A and an operand.
#[derive(Clone, Copy, Debug, PartialEq, Eq, Structural)]
pub enum AluOp {
    Add,
    Adc,
    Sub,
    Sbc,
    And,
    Xor,
    Or,
    Cp,
}

/// What an opcode of the primary table stands for.
#[derive(Clone, Copy, Debug, PartialEq, Eq, Structural)]
pub enum Instruction {
    Nop,
    /// LD: destination, source.
    Ld8(Operand8, Operand8),
    /// LD: destination, source.
    Ld16(Operand16, Operand16),
    Inc8(Operand8),
    Dec8(Operand8),
    Inc16(Operand16),
    Dec16(Operand16),
    Alu8(AluOp, Operand8),
    AddHl(Operand16),
    AddSp,
    Jr(Condition),
    Jp(Condition, Operand16),
    Call(Condition),
    Ret(Condition),
    Rst(u8),
    Push(Operand16),
    Pop(Operand16),
    /// The prefix of the second table.
    Prefix,
    /// An opcode that the processor has no instruction for.
    Illegal,
    /// An instruction of the processor that has no kernel.
    Unimplemented,
}

/// What an opcode does to the machine, and what the table reports of it.
pub struct Outcome {
    /// The state after the instruction.
    pub machine: Machine,
    /// By how much the caller is to advance the program counter: the
    /// length of the instruction, or zero where the instruction set the
    /// program counter itself.
    pub pc_delta: u8,
    /// The cycles that the instruction took.
    pub cycles: u8,
}

/// The 8-bit operand that a three-bit field selects: B, C, D, E, H, L, the
/// cell at HL, A.
pub open spec fn operand_field(field: int) -> Operand8 {
    if field == 0 {
        Operand8::Register(R8::B)
    } else if field == 1 {
        Operand8::Register(R8::C)
    } else if field == 2 {
        Operand8::Register(R8::D)
    } else if field == 3 {
        Operand8::Register(R8::E)
    } else if field == 4 {
        Operand8::Register(R8::H)
    } else if field == 5 {
        Operand8::Register(R8::L)
    } else if field == 6 {
        Operand8::Memory(Address::HL)
    } else {
        Operand8::Register(R8::A)
    }
}

/// The register pair that a two-bit field selects: BC, DE, HL, and as the
/// fourth SP, or AF for PUSH and POP.
pub open spec fn pair_field(field: int, fourth: R16) -> Operand16 {
    if field == 0 {
        Operand16::Register(R16::BC)
    } else if field == 1 {
        Operand16::Register(R16::DE)
    } else if field == 2 {
        Operand16::Register(R16::HL)
    } else {
        Operand16::Register(fourth)
    }
}

/// The condition that a two-bit field selects: NZ, Z, NC, C.
pub open spec fn condition_field(field: int) -> Condition {
    if field == 0 {
        Condition::NZ
    } else if field == 1 {
        Condition::Z
    } else if field == 2 {
        Condition::NC
    } else {
        Condition::C
    }
}

/// The operation that a three-bit field selects: ADD, ADC, SUB, SBC, AND,
/// XOR, OR, CP.
pub open spec fn alu_field(field: int) -> AluOp {
    if field == 0 {
        AluOp::Add
    } else if field == 1 {
        AluOp::Adc
    } else if field == 2 {
        AluOp::Sub
    } else if field == 3 {
        AluOp::Sbc
    } else if field == 4 {
        AluOp::And
    } else if field == 5 {
        AluOp::Xor
    } else if field == 6 {
        AluOp::Or
    } else {
        AluOp::Cp
    }
}

/// The instructions of the first quarter of the table, `0x00` to `0x3F`,
/// by the fields `y` (bits 5 to 3) and `z` (bits 2 to 0) of the opcode.
/// Where a column holds two kinds of instruction in turn, `first` says
/// which, and `p` (bits 5 and 4) selects the register pair.
pub open spec fn decode_low(y: int, z: int) -> Instruction {
    let p = y / 2;
    let first = y % 2 == 0;
    if z == 0 {
        if y == 0 {
            Instruction::Nop
        } else if y == 3 {
            Instruction::Jr(Condition::T)
        } else if y >= 4 {
            Instruction::Jr(condition_field(y - 4))
        } else {
            Instruction::Unimplemented
        }
    } else if z == 1 {
        if first {
            Instruction::Ld16(pair_field(p, R16::SP), Operand16::Immediate)
        } else {
            Instruction::AddHl(pair_field(p, R16::SP))
        }
    } else if z == 2 {
        if p >= 2 {
            Instruction::Unimplemented
        } else {
            let cell = Operand8::Memory(if p == 0 { Address::BC } else { Address::DE });
            if first {
                Instruction::Ld8(cell, Operand8::Register(R8::A))
            } else {
                Instruction::Ld8(Operand8::Register(R8::A), cell)
            }
        }
    } else if z == 3 {
        if first {
            Instruction::Inc16(pair_field(p, R16::SP))
        } else {
            Instruction::Dec16(pair_field(p, R16::SP))
        }
    } else if z == 4 {
        Instruction::Inc8(operand_field(y))
    } else if z == 5 {
        Instruction::Dec8(operand_field(y))
    } else if z == 6 {
        Instruction::Ld8(operand_field(y), Operand8::Immediate)
    } else {
        Instruction::Unimplemented
    }
}

/// The instructions of the last quarter of the table, `0xC0` to `0xFF`, by
/// the fields `y` (bits 5 to 3) and `z` (bits 2 to 0) of the opcode, with
/// `first` and `p` as in the first quarter.
pub open spec fn decode_high(y: int, z: int) -> Instruction {
    let p = y / 2;
    let first = y % 2 == 0;
    if z == 0 {
        if y < 4 {
            Instruction::Ret(condition_field(y))
        } else if y == 5 {
            Instruction::AddSp
        } else {
            Instruction::Unimplemented
        }
    } else if z == 1 {
        if first {
            Instruction::Pop(pair_field(p, R16::AF))
        } else if p == 0 {
            Instruction::Ret(Condition::T)
        } else if p == 1 {
            Instruction::Unimplemented
        } else if p == 2 {
            Instruction::Jp(Condition::T, Operand16::Register(R16::HL))
        } else {
            Instruction::Ld16(Operand16::Register(R16::SP), Operand16::Register(R16::HL))
        }
    } else if z == 2 {
        if y < 4 {
            Instruction::Jp(condition_field(y), Operand16::Immediate)
        } else {
            Instruction::Unimplemented
        }
    } else if z == 3 {
        if y == 0 {
            Instruction::Jp(Condition::T, Operand16::Immediate)
        } else if y == 1 {
            Instruction::Prefix
        } else if y < 6 {
            Instruction::Illegal
        } else {
            Instruction::Unimplemented
        }
    } else if z == 4 {
        if y < 4 {
            Instruction::Call(condition_field(y))
        } else {
            Instruction::Illegal
        }
    } else if z == 5 {
        if first {
            Instruction::Push(pair_field(p, R16::AF))
        } else if p == 0 {
            Instruction::Call(Condition::T)
        } else {
            Instruction::Illegal
        }
    } else if z == 6 {
        Instruction::Alu8(alu_field(y), Operand8::Immediate)
    } else {
        Instruction::Rst((8 * y) as u8)
    }
}

/// Bits 7 and 6 of an opcode: the quarter of the table that it lies in.
#[verifier::opaque]
pub open spec fn field_x(opcode: u8) -> int {
    opcode as int / 64
}

/// Bits 5 to 3 of an opcode: its row of eight within the quarter.
#[verifier::opaque]
pub open spec fn field_y(opcode: u8) -> int {
    (opcode as int / 8) % 8
}

/// Bits 2 to 0 of an opcode: its place in the row of eight.
#[verifier::opaque]
pub open spec fn field_z(opcode: u8) -> int {
    opcode as int % 8
}

/// The instruction that an opcode of the primary table stands for.
///
/// The second quarter holds the loads between the eight 8-bit operands,
/// where `0x76` would load the cell at HL from itself and is HALT instead;
/// the third quarter holds the arithmetic on A.
pub open spec fn decode(opcode: u8) -> Instruction {
    let x = field_x(opcode);
    let y = field_y(opcode);
    let z = field_z(opcode);
    if x == 0 {
        decode_low(y, z)
    } else if x == 1 {
        if y == 6 && z == 6 {
            Instruction::Unimplemented
        } else {
            Instruction::Ld8(operand_field(y), operand_field(z))
        }
    } else if x == 2 {
        Instruction::Alu8(alu_field(y), operand_field(z))
    } else {
        decode_high(y, z)
    }
}

/// The fields of an opcode are its digits to the base eight, and each can
/// be found by comparing alone.
pub proof fn lemma_fields(opcode: u8)
    ensures
        opcode == 64 * field_x(opcode) + 8 * field_y(opcode) + field_z(opcode),
        0 <= field_x(opcode) < 4,
        0 <= field_y(opcode) < 8,
        0 <= field_z(opcode) < 8,
        field_x(opcode) == (if opcode < 0x40 {
            0int
        } else if opcode < 0x80 {
            1
        } else if opcode < 0xC0 {
            2
        } else {
            3
        }),
        field_y(opcode) == ({
            let row = opcode - 64 * field_x(opcode);
            if row < 8 {
                0int
            } else if row < 16 {
                1
            } else if row < 24 {
                2
            } else if row < 32 {
                3
            } else if row < 40 {
                4
            } else if row < 48 {
                5
            } else if row < 56 {
                6
            } else {
                7
            }
        }),
{
    reveal(field_x);
    reveal(field_y);
    reveal(field_z);
}

/// The bytes that an 8-bit operand adds to an instruction.
pub open spec fn operand_bytes(operand: Operand8) -> int {
    match operand {
        Operand8::Register(_) => 0,
        Operand8::Memory(Address::HighImm) => 1,
        Operand8::Memory(Address::Imm16) => 2,
        Operand8::Memory(_) => 0,
        Operand8::Immediate => 1,
    }
}

/// The cycles that one access to an 8-bit operand adds to an instruction:
/// four for each byte fetched after the opcode and four for the cell.
pub open spec fn operand_cycles(operand: Operand8) -> int {
    match operand {
        Operand8::Register(_) => 0,
        Operand8::Memory(_) => 4 + 4 * operand_bytes(operand),
        Operand8::Immediate => 4,
    }
}

impl Instruction {
    /// The state after the instruction. The program counter changes only
    /// where the instruction sets it; advancing it is the caller's part.
    pub open spec fn apply(self, m: Machine) -> Machine {
        match self {
            Instruction::Nop => m,
            Instruction::Ld8(dst, src) => m.ld8(dst, src),
            Instruction::Ld16(dst, src) => m.ld16(dst, src),
            Instruction::Inc8(x) => m.inc8(x),
            Instruction::Dec8(x) => m.dec8(x),
            Instruction::Inc16(x) => m.inc16(x),
            Instruction::Dec16(x) => m.dec16(x),
            Instruction::Alu8(AluOp::Add, src) => m.add8(src),
            Instruction::Alu8(AluOp::Adc, src) => m.adc8(src),
            Instruction::Alu8(AluOp::Sub, src) => m.sub8(src),
            Instruction::Alu8(AluOp::Sbc, src) => m.sbc8(src),
            Instruction::Alu8(AluOp::And, src) => m.and8(src),
            Instruction::Alu8(AluOp::Xor, src) => m.xor8(src),
            Instruction::Alu8(AluOp::Or, src) => m.or8(src),
            Instruction::Alu8(AluOp::Cp, src) => m.cp8(src),
            Instruction::AddHl(src) => m.add16(src),
            Instruction::AddSp => m.add_sp(Operand8::Immediate),
            Instruction::Jr(cc) => m.jr(cc, Operand8::Immediate),
            Instruction::Jp(cc, src) => m.jp(cc, src),
            Instruction::Call(cc) => m.call(cc, Operand16::Immediate),
            Instruction::Ret(cc) => m.ret(cc),
            Instruction::Rst(vector) => m.rst(vector),
            Instruction::Push(src) => m.push16(src),
            Instruction::Pop(dst) => m.pop16(dst),
            Instruction::Prefix => m,
            Instruction::Illegal => m,
            Instruction::Unimplemented => m,
        }
    }

    /// Whether the instruction sets the program counter in state `m`: a
    /// jump, call or return whose condition holds, or a restart.
    pub open spec fn jumps(self, m: Machine) -> bool {
        match self {
            Instruction::Jr(cc) => m.reg.spec_test(cc),
            Instruction::Jp(cc, _) => m.reg.spec_test(cc),
            Instruction::Call(cc) => m.reg.spec_test(cc),
            Instruction::Ret(cc) => m.reg.spec_test(cc),
            Instruction::Rst(_) => true,
            _ => false,
        }
    }

    /// The length of the instruction in bytes.
    pub open spec fn length(self) -> int {
        match self {
            Instruction::Ld8(dst, src) => 1 + operand_bytes(dst) + operand_bytes(src),
            Instruction::Inc8(x) => 1 + operand_bytes(x),
            Instruction::Dec8(x) => 1 + operand_bytes(x),
            Instruction::Alu8(_, src) => 1 + operand_bytes(src),
            Instruction::Ld16(_, Operand16::Immediate) => 3,
            Instruction::Jp(_, Operand16::Immediate) => 3,
            Instruction::Call(_) => 3,
            Instruction::AddSp => 2,
            Instruction::Jr(_) => 2,
            _ => 1,
        }
    }

    /// The cycles of the instruction where it does not set the program
    /// counter. An opcode without a kernel costs nothing.
    pub open spec fn cycles(self) -> int {
        match self {
            Instruction::Nop => 4,
            Instruction::Ld8(dst, src) => 4 + operand_cycles(dst) + operand_cycles(src),
            Instruction::Inc8(x) => 4 + 2 * operand_cycles(x),
            Instruction::Dec8(x) => 4 + 2 * operand_cycles(x),
            Instruction::Alu8(_, src) => 4 + operand_cycles(src),
            Instruction::Ld16(_, Operand16::Immediate) => 12,
            Instruction::Ld16(_, Operand16::Register(_)) => 8,
            Instruction::Inc16(_) => 8,
            Instruction::Dec16(_) => 8,
            Instruction::AddHl(_) => 8,
            Instruction::AddSp => 16,
            Instruction::Jr(_) => 8,
            Instruction::Jp(_, Operand16::Immediate) => 12,
            Instruction::Jp(_, Operand16::Register(_)) => 4,
            Instruction::Call(_) => 12,
            Instruction::Ret(_) => 8,
            Instruction::Rst(_) => 16,
            Instruction::Push(_) => 16,
            Instruction::Pop(_) => 12,
            Instruction::Prefix => 0,
            Instruction::Illegal => 0,
            Instruction::Unimplemented => 0,
        }
    }

    /// The cycles of the instruction where it sets the program counter.
    pub open spec fn taken_cycles(self) -> int {
        match self {
            Instruction::Jr(_) => 12,
            Instruction::Jp(_, Operand16::Immediate) => 16,
            Instruction::Call(_) => 24,
            Instruction::Ret(Condition::T) => 16,
            Instruction::Ret(_) => 20,
            _ => self.cycles(),
        }
    }

    /// The state after the instruction and the table's report of it.
    pub open spec fn outcome(self, m: Machine) -> Outcome {
        let row = timing(
            self.jumps(m),
            self.length() as u8,
            self.cycles() as u8,
            self.taken_cycles() as u8,
        );
        Outcome { machine: self.apply(m), pc_delta: row.0, cycles: row.1 }
    }
}

/// What opcode `opcode` of the primary table does in state `m`.
pub open spec fn exec_spec(opcode: u8, m: Machine) -> Outcome {
    decode(opcode).outcome(m)
}

/// What opcode `opcode` of the prefixed table does in state `m`: no opcode
/// of that table has a kernel, so the state stays, the advance is one byte
/// and the cost is nothing.
pub open spec fn exec_prefix_cb_spec(opcode: u8, m: Machine) -> Outcome {
    Instruction::Unimplemented.outcome(m)
}

/// Rows `0x00` to `0x3F`: loads of immediates and through BC and DE,
/// increments and decrements, 16-bit additions, relative jumps.
fn rows_00_3f(opcode: u8, reg: &mut Registers, ram: &mut Ram) -> (row: (u8, u8))
    requires
        old(ram).wf(),
        0x00 <= opcode <= 0x3F,
    ensures
        final(ram).wf(),
        *final(reg) == exec_spec(opcode, state(*old(reg), old(ram)@)).machine.reg,
        final(ram)@ == exec_spec(opcode, state(*old(reg), old(ram)@)).machine.mem,
        row.0 == exec_spec(opcode, state(*old(reg), old(ram)@)).pc_delta,
        row.1 == exec_spec(opcode, state(*old(reg), old(ram)@)).cycles,
{
    proof {
        lemma_fields(opcode);
    }
    match opcode {
        0x00 => (1, 4),  // NOP  [- - - -]
        0x01 => ld16(reg, ram, R16::BC, Immediate16).r(3, 12),  // LD BC,d16  [- - - -]
        0x02 => ld8(reg, ram, Address::BC, R8::A).r(1, 8),  // LD (BC),A  [- - - -]
        0x03 => inc16(reg, ram, R16::BC).r(1, 8),  // INC BC  [- - - -]
        0x04 => inc8(reg, ram, R8::B).r(1, 4),  // INC B  [Z 0 H -]
        0x05 => dec8(reg, ram, R8::B).r(1, 4),  // DEC B  [Z 1 H -]
        0x06 => ld8(reg, ram, R8::B, Immediate8).r(2, 8),  // LD B,d8  [- - - -]
        0x07 => undefined(reg, ram, opcode).r(1, 0),  // RLCA: no kernel
        0x08 => undefined(reg, ram, opcode).r(1, 0),  // LD (a16),SP: no kernel
        0x09 => add16(reg, ram, R16::BC).r(1, 8),  // ADD HL,BC  [- 0 H C]
        0x0A => ld8(reg, ram, R8::A, Address::BC).r(1, 8),  // LD A,(BC)  [- - - -]
        0x0B => dec16(reg, ram, R16::BC).r(1, 8),  // DEC BC  [- - - -]
        0x0C => inc8(reg, ram, R8::C).r(1, 4),  // INC C  [Z 0 H -]
        0x0D => dec8(reg, ram, R8::C).r(1, 4),  // DEC C  [Z 1 H -]
        0x0E => ld8(reg, ram, R8::C, Immediate8).r(2, 8),  // LD C,d8  [- - - -]
        0x0F => undefined(reg, ram, opcode).r(1, 0),  // RRCA: no kernel
        0x10 => undefined(reg, ram, opcode).r(1, 0),  // STOP 0: no kernel
        0x11 => ld16(reg, ram, R16::DE, Immediate16).r(3, 12),  // LD DE,d16  [- - - -]
        0x12 => ld8(reg, ram, Address::DE, R8::A).r(1, 8),  // LD (DE),A  [- - - -]
        0x13 => inc16(reg, ram, R16::DE).r(1, 8),  // INC DE  [- - - -]
        0x14 => inc8(reg, ram, R8::D).r(1, 4),  // INC D  [Z 0 H -]
        0x15 => dec8(reg, ram, R8::D).r(1, 4),  // DEC D  [Z 1 H -]
        0x16 => ld8(reg, ram, R8::D, Immediate8).r(2, 8),  // LD D,d8  [- - - -]
        0x17 => undefined(reg, ram, opcode).r(1, 0),  // RLA: no kernel
        0x18 => jr(reg, ram, Condition::T, Immediate8).r(2, 12),  // JR r8  [- - - -]
        0x19 => add16(reg, ram, R16::DE).r(1, 8),  // ADD HL,DE  [- 0 H C]
        0x1A => ld8(reg, ram, R8::A, Address::DE).r(1, 8),  // LD A,(DE)  [- - - -]
        0x1B => dec16(reg, ram, R16::DE).r(1, 8),  // DEC DE  [- - - -]
        0x1C => inc8(reg, ram, R8::E).r(1, 4),  // INC E  [Z 0 H -]
        0x1D => dec8(reg, ram, R8::E).r(1, 4),  // DEC E  [Z 1 H -]
        0x1E => ld8(reg, ram, R8::E, Immediate8).r(2, 8),  // LD E,d8  [- - - -]
        0x1F => undefined(reg, ram, opcode).r(1, 0),  // RRA: no kernel
        0x20 => jr(reg, ram, Condition::NZ, Immediate8).branch(2, 8, 12),  // JR NZ,r8  [- - - -]
        0x21 => ld16(reg, ram, R16::HL, Immediate16).r(3, 12),  // LD HL,d16  [- - - -]
        0x22 => undefined(reg, ram, opcode).r(1, 0),  // LD (HL+),A: no kernel
        0x23 => inc16(reg, ram, R16::HL).r(1, 8),  // INC HL  [- - - -]
        0x24 => inc8(reg, ram, R8::H).r(1, 4),  // INC H  [Z 0 H -]
        0x25 => dec8(reg, ram, R8::H).r(1, 4),  // DEC H  [Z 1 H -]
        0x26 => ld8(reg, ram, R8::H, Immediate8).r(2, 8),  // LD H,d8  [- - - -]
        0x27 => undefined(reg, ram, opcode).r(1, 0),  // DAA: no kernel
        0x28 => jr(reg, ram, Condition::Z, Immediate8).branch(2, 8, 12),  // JR Z,r8  [- - - -]
        0x29 => add16(reg, ram, R16::HL).r(1, 8),  // ADD HL,HL  [- 0 H C]
        0x2A => undefined(reg, ram, opcode).r(1, 0),  // LD A,(HL+): no kernel
        0x2B => dec16(reg, ram, R16::HL).r(1, 8),  // DEC HL  [- - - -]
        0x2C => inc8(reg, ram, R8::L).r(1, 4),  // INC L  [Z 0 H -]
        0x2D => dec8(reg, ram, R8::L).r(1, 4),  // DEC L  [Z 1 H -]
        0x2E => ld8(reg, ram, R8::L, Immediate8).r(2, 8),  // LD L,d8  [- - - -]
        0x2F => undefined(reg, ram, opcode).r(1, 0),  // CPL: no kernel
        0x30 => jr(reg, ram, Condition::NC, Immediate8).branch(2, 8, 12),  // JR NC,r8  [- - - -]
        0x31 => ld16(reg, ram, R16::SP, Immediate16).r(3, 12),  // LD SP,d16  [- - - -]
        0x32 => undefined(reg, ram, opcode).r(1, 0),  // LD (HL-),A: no kernel
        0x33 => inc16(reg, ram, R16::SP).r(1, 8),  // INC SP  [- - - -]
        0x34 => inc8(reg, ram, Address::HL).r(1, 12),  // INC (HL)  [Z 0 H -]
        0x35 => dec8(reg, ram, Address::HL).r(1, 12),  // DEC (HL)  [Z 1 H -]
        0x36 => ld8(reg, ram, Address::HL, Immediate8).r(2, 12),  // LD (HL),d8  [- - - -]
        0x37 => undefined(reg, ram, opcode).r(1, 0),  // SCF: no kernel
        0x38 => jr(reg, ram, Condition::C, Immediate8).branch(2, 8, 12),  // JR C,r8  [- - - -]
        0x39 => add16(reg, ram, R16::SP).r(1, 8),  // ADD HL,SP  [- 0 H C]
        0x3A => undefined(reg, ram, opcode).r(1, 0),  // LD A,(HL-): no kernel
        0x3B => dec16(reg, ram, R16::SP).r(1, 8),  // DEC SP  [- - - -]
        0x3C => inc8(reg, ram, R8::A).r(1, 4),  // INC A  [Z 0 H -]
        0x3D => dec8(reg, ram, R8::A).r(1, 4),  // DEC A  [Z 1 H -]
        0x3E => ld8(reg, ram, R8::A, Immediate8).r(2, 8),  // LD A,d8  [- - - -]
        0x3F => undefined(reg, ram, opcode).r(1, 0),  // CCF: no kernel
        _ => undefined(reg, ram, opcode).r(1, 0),  // no row of this block
    }
}

/// Rows `0x40` to `0x7F`: the loads between the eight 8-bit operands.
fn rows_40_7f(opcode: u8, reg: &mut Registers, ram: &mut Ram) -> (row: (u8, u8))
    requires
        old(ram).wf(),
        0x40 <= opcode <= 0x7F,
    ensures
        final(ram).wf(),
        *final(reg) == exec_spec(opcode, state(*old(reg), old(ram)@)).machine.reg,
        final(ram)@ == exec_spec(opcode, state(*old(reg), old(ram)@)).machine.mem,
        row.0 == exec_spec(opcode, state(*old(reg), old(ram)@)).pc_delta,
        row.1 == exec_spec(opcode, state(*old(reg), old(ram)@)).cycles,
{
    proof {
        lemma_fields(opcode);
    }
    match opcode {
        0x40 => ld8(reg, ram, R8::B, R8::B).r(1, 4),  // LD B,B  [- - - -]
        0x41 => ld8(reg, ram, R8::B, R8::C).r(1, 4),  // LD B,C  [- - - -]
        0x42 => ld8(reg, ram, R8::B, R8::D).r(1, 4),  // LD B,D  [- - - -]
        0x43 => ld8(reg, ram, R8::B, R8::E).r(1, 4),  // LD B,E  [- - - -]
        0x44 => ld8(reg, ram, R8::B, R8::H).r(1, 4),  // LD B,H  [- - - -]
        0x45 => ld8(reg, ram, R8::B, R8::L).r(1, 4),  // LD B,L  [- - - -]
        0x46 => ld8(reg, ram, R8::B, Address::HL).r(1, 8),  // LD B,(HL)  [- - - -]
        0x47 => ld8(reg, ram, R8::B, R8::A).r(1, 4),  // LD B,A  [- - - -]
        0x48 => ld8(reg, ram, R8::C, R8::B).r(1, 4),  // LD C,B  [- - - -]
        0x49 => ld8(reg, ram, R8::C, R8::C).r(1, 4),  // LD C,C  [- - - -]
        0x4A => ld8(reg, ram, R8::C, R8::D).r(1, 4),  // LD C,D  [- - - -]
        0x4B => ld8(reg, ram, R8::C, R8::E).r(1, 4),  // LD C,E  [- - - -]
        0x4C => ld8(reg, ram, R8::C, R8::H).r(1, 4),  // LD C,H  [- - - -]
        0x4D => ld8(reg, ram, R8::C, R8::L).r(1, 4),  // LD C,L  [- - - -]
        0x4E => ld8(reg, ram, R8::C, Address::HL).r(1, 8),  // LD C,(HL)  [- - - -]
        0x4F => ld8(reg, ram, R8::C, R8::A).r(1, 4),  // LD C,A  [- - - -]
        0x50 => ld8(reg, ram, R8::D, R8::B).r(1, 4),  // LD D,B  [- - - -]
        0x51 => ld8(reg, ram, R8::D, R8::C).r(1, 4),  // LD D,C  [- - - -]
        0x52 => ld8(reg, ram, R8::D, R8::D).r(1, 4),  // LD D,D  [- - - -]
        0x53 => ld8(reg, ram, R8::D, R8::E).r(1, 4),  // LD D,E  [- - - -]
        0x54 => ld8(reg, ram, R8::D, R8::H).r(1, 4),  // LD D,H  [- - - -]
        0x55 => ld8(reg, ram, R8::D, R8::L).r(1, 4),  // LD D,L  [- - - -]
        0x56 => ld8(reg, ram, R8::D, Address::HL).r(1, 8),  // LD D,(HL)  [- - - -]
        0x57 => ld8(reg, ram, R8::D, R8::A).r(1, 4),  // LD D,A  [- - - -]
        0x58 => ld8(reg, ram, R8::E, R8::B).r(1, 4),  // LD E,B  [- - - -]
        0x59 => ld8(reg, ram, R8::E, R8::C).r(1, 4),  // LD E,C  [- - - -]
        0x5A => ld8(reg, ram, R8::E, R8::D).r(1, 4),  // LD E,D  [- - - -]
        0x5B => ld8(reg, ram, R8::E, R8::E).r(1, 4),  // LD E,E  [- - - -]
        0x5C => ld8(reg, ram, R8::E, R8::H).r(1, 4),  // LD E,H  [- - - -]
        0x5D => ld8(reg, ram, R8::E, R8::L).r(1, 4),  // LD E,L  [- - - -]
        0x5E => ld8(reg, ram, R8::E, Address::HL).r(1, 8),  // LD E,(HL)  [- - - -]
        0x5F => ld8(reg, ram, R8::E, R8::A).r(1, 4),  // LD E,A  [- - - -]
        0x60 => ld8(reg, ram, R8::H, R8::B).r(1, 4),  // LD H,B  [- - - -]
        0x61 => ld8(reg, ram, R8::H, R8::C).r(1, 4),  // LD H,C  [- - - -]
        0x62 => ld8(reg, ram, R8::H, R8::D).r(1, 4),  // LD H,D  [- - - -]
        0x63 => ld8(reg, ram, R8::H, R8::E).r(1, 4),  // LD H,E  [- - - -]
        0x64 => ld8(reg, ram, R8::H, R8::H).r(1, 4),  // LD H,H  [- - - -]
        0x65 => ld8(reg, ram, R8::H, R8::L).r(1, 4),  // LD H,L  [- - - -]
        0x66 => ld8(reg, ram, R8::H, Address::HL).r(1, 8),  // LD H,(HL)  [- - - -]
        0x67 => ld8(reg, ram, R8::H, R8::A).r(1, 4),  // LD H,A  [- - - -]
        0x68 => ld8(reg, ram, R8::L, R8::B).r(1, 4),  // LD L,B  [- - - -]
        0x69 => ld8(reg, ram, R8::L, R8::C).r(1, 4),  // LD L,C  [- - - -]
        0x6A => ld8(reg, ram, R8::L, R8::D).r(1, 4),  // LD L,D  [- - - -]
        0x6B => ld8(reg, ram, R8::L, R8::E).r(1, 4),  // LD L,E  [- - - -]
        0x6C => ld8(reg, ram, R8::L, R8::H).r(1, 4),  // LD L,H  [- - - -]
        0x6D => ld8(reg, ram, R8::L, R8::L).r(1, 4),  // LD L,L  [- - - -]
        0x6E => ld8(reg, ram, R8::L, Address::HL).r(1, 8),  // LD L,(HL)  [- - - -]
        0x6F => ld8(reg, ram, R8::L, R8::A).r(1, 4),  // LD L,A  [- - - -]
        0x70 => ld8(reg, ram, Address::HL, R8::B).r(1, 8),  // LD (HL),B  [- - - -]
        0x71 => ld8(reg, ram, Address::HL, R8::C).r(1, 8),  // LD (HL),C  [- - - -]
        0x72 => ld8(reg, ram, Address::HL, R8::D).r(1, 8),  // LD (HL),D  [- - - -]
        0x73 => ld8(reg, ram, Address::HL, R8::E).r(1, 8),  // LD (HL),E  [- - - -]
        0x74 => ld8(reg, ram, Address::HL, R8::H).r(1, 8),  // LD (HL),H  [- - - -]
        0x75 => ld8(reg, ram, Address::HL, R8::L).r(1, 8),  // LD (HL),L  [- - - -]
        0x76 => undefined(reg, ram, opcode).r(1, 0),  // HALT: no kernel
        0x77 => ld8(reg, ram, Address::HL, R8::A).r(1, 8),  // LD (HL),A  [- - - -]
        0x78 => ld8(reg, ram, R8::A, R8::B).r(1, 4),  // LD A,B  [- - - -]
        0x79 => ld8(reg, ram, R8::A, R8::C).r(1, 4),  // LD A,C  [- - - -]
        0x7A => ld8(reg, ram, R8::A, R8::D).r(1, 4),  // LD A,D  [- - - -]
        0x7B => ld8(reg, ram, R8::A, R8::E).r(1, 4),  // LD A,E  [- - - -]
        0x7C => ld8(reg, ram, R8::A, R8::H).r(1, 4),  // LD A,H  [- - - -]
        0x7D => ld8(reg, ram, R8::A, R8::L).r(1, 4),  // LD A,L  [- - - -]
        0x7E => ld8(reg, ram, R8::A, Address::HL).r(1, 8),  // LD A,(HL)  [- - - -]
        0x7F => ld8(reg, ram, R8::A, R8::A).r(1, 4),  // LD A,A  [- - - -]
        _ => undefined(reg, ram, opcode).r(1, 0),  // no row of this block
    }
}

/// Rows `0x80` to `0xBF`: the arithmetic on A and one of the eight 8-bit operands.
fn rows_80_bf(opcode: u8, reg: &mut Registers, ram: &mut Ram) -> (row: (u8, u8))
    requires
        old(ram).wf(),
        0x80 <= opcode <= 0xBF,
    ensures
        final(ram).wf(),
        *final(reg) == exec_spec(opcode, state(*old(reg), old(ram)@)).machine.reg,
        final(ram)@ == exec_spec(opcode, state(*old(reg), old(ram)@)).machine.mem,
        row.0 == exec_spec(opcode, state(*old(reg), old(ram)@)).pc_delta,
        row.1 == exec_spec(opcode, state(*old(reg), old(ram)@)).cycles,
{
    proof {
        lemma_fields(opcode);
    }
    match opcode {
        0x80 => add8(reg, ram, R8::B).r(1, 4),  // ADD A,B  [Z 0 H C]
        0x81 => add8(reg, ram, R8::C).r(1, 4),  // ADD A,C  [Z 0 H C]
        0x82 => add8(reg, ram, R8::D).r(1, 4),  // ADD A,D  [Z 0 H C]
        0x83 => add8(reg, ram, R8::E).r(1, 4),  // ADD A,E  [Z 0 H C]
        0x84 => add8(reg, ram, R8::H).r(1, 4),  // ADD A,H  [Z 0 H C]
        0x85 => add8(reg, ram, R8::L).r(1, 4),  // ADD A,L  [Z 0 H C]
        0x86 => add8(reg, ram, Address::HL).r(1, 8),  // ADD A,(HL)  [Z 0 H C]
        0x87 => add8(reg, ram, R8::A).r(1, 4),  // ADD A,A  [Z 0 H C]
        0x88 => adc8(reg, ram, R8::B).r(1, 4),  // ADC A,B  [Z 0 H C]
        0x89 => adc8(reg, ram, R8::C).r(1, 4),  // ADC A,C  [Z 0 H C]
        0x8A => adc8(reg, ram, R8::D).r(1, 4),  // ADC A,D  [Z 0 H C]
        0x8B => adc8(reg, ram, R8::E).r(1, 4),  // ADC A,E  [Z 0 H C]
        0x8C => adc8(reg, ram, R8::H).r(1, 4),  // ADC A,H  [Z 0 H C]
        0x8D => adc8(reg, ram, R8::L).r(1, 4),  // ADC A,L  [Z 0 H C]
        0x8E => adc8(reg, ram, Address::HL).r(1, 8),  // ADC A,(HL)  [Z 0 H C]
        0x8F => adc8(reg, ram, R8::A).r(1, 4),  // ADC A,A  [Z 0 H C]
        0x90 => sub8(reg, ram, R8::B).r(1, 4),  // SUB A,B  [Z 1 H C]
        0x91 => sub8(reg, ram, R8::C).r(1, 4),  // SUB A,C  [Z 1 H C]
        0x92 => sub8(reg, ram, R8::D).r(1, 4),  // SUB A,D  [Z 1 H C]
        0x93 => sub8(reg, ram, R8::E).r(1, 4),  // SUB A,E  [Z 1 H C]
        0x94 => sub8(reg, ram, R8::H).r(1, 4),  // SUB A,H  [Z 1 H C]
        0x95 => sub8(reg, ram, R8::L).r(1, 4),  // SUB A,L  [Z 1 H C]
        0x96 => sub8(reg, ram, Address::HL).r(1, 8),  // SUB A,(HL)  [Z 1 H C]
        0x97 => sub8(reg, ram, R8::A).r(1, 4),  // SUB A,A  [Z 1 H C]
        0x98 => sbc8(reg, ram, R8::B).r(1, 4),  // SBC A,B  [Z 1 H C]
        0x99 => sbc8(reg, ram, R8::C).r(1, 4),  // SBC A,C  [Z 1 H C]
        0x9A => sbc8(reg, ram, R8::D).r(1, 4),  // SBC A,D  [Z 1 H C]
        0x9B => sbc8(reg, ram, R8::E).r(1, 4),  // SBC A,E  [Z 1 H C]
        0x9C => sbc8(reg, ram, R8::H).r(1, 4),  // SBC A,H  [Z 1 H C]
        0x9D => sbc8(reg, ram, R8::L).r(1, 4),  // SBC A,L  [Z 1 H C]
        0x9E => sbc8(reg, ram, Address::HL).r(1, 8),  // SBC A,(HL)  [Z 1 H C]
        0x9F => sbc8(reg, ram, R8::A).r(1, 4),  // SBC A,A  [Z 1 H C]
        0xA0 => and8(reg, ram, R8::B).r(1, 4),  // AND B  [Z 0 1 0]
        0xA1 => and8(reg, ram, R8::C).r(1, 4),  // AND C  [Z 0 1 0]
        0xA2 => and8(reg, ram, R8::D).r(1, 4),  // AND D  [Z 0 1 0]
        0xA3 => and8(reg, ram, R8::E).r(1, 4),  // AND E  [Z 0 1 0]
        0xA4 => and8(reg, ram, R8::H).r(1, 4),  // AND H  [Z 0 1 0]
        0xA5 => and8(reg, ram, R8::L).r(1, 4),  // AND L  [Z 0 1 0]
        0xA6 => and8(reg, ram, Address::HL).r(1, 8),  // AND (HL)  [Z 0 1 0]
        0xA7 => and8(reg, ram, R8::A).r(1, 4),  // AND A  [Z 0 1 0]
        0xA8 => xor8(reg, ram, R8::B).r(1, 4),  // XOR B  [Z 0 0 0]
        0xA9 => xor8(reg, ram, R8::C).r(1, 4),  // XOR C  [Z 0 0 0]
        0xAA => xor8(reg, ram, R8::D).r(1, 4),  // XOR D  [Z 0 0 0]
        0xAB => xor8(reg, ram, R8::E).r(1, 4),  // XOR E  [Z 0 0 0]
        0xAC => xor8(reg, ram, R8::H).r(1, 4),  // XOR H  [Z 0 0 0]
        0xAD => xor8(reg, ram, R8::L).r(1, 4),  // XOR L  [Z 0 0 0]
        0xAE => xor8(reg, ram, Address::HL).r(1, 8),  // XOR (HL)  [Z 0 0 0]
        0xAF => xor8(reg, ram, R8::A).r(1, 4),  // XOR A  [Z 0 0 0]
        0xB0 => or8(reg, ram, R8::B).r(1, 4),  // OR B  [Z 0 0 0]
        0xB1 => or8(reg, ram, R8::C).r(1, 4),  // OR C  [Z 0 0 0]
        0xB2 => or8(reg, ram, R8::D).r(1, 4),  // OR D  [Z 0 0 0]
        0xB3 => or8(reg, ram, R8::E).r(1, 4),  // OR E  [Z 0 0 0]
        0xB4 => or8(reg, ram, R8::H).r(1, 4),  // OR H  [Z 0 0 0]
        0xB5 => or8(reg, ram, R8::L).r(1, 4),  // OR L  [Z 0 0 0]
        0xB6 => or8(reg, ram, Address::HL).r(1, 8),  // OR (HL)  [Z 0 0 0]
        0xB7 => or8(reg, ram, R8::A).r(1, 4),  // OR A  [Z 0 0 0]
        0xB8 => cp8(reg, ram, R8::B).r(1, 4),  // CP B  [Z 1 H C]
        0xB9 => cp8(reg, ram, R8::C).r(1, 4),  // CP C  [Z 1 H C]
        0xBA => cp8(reg, ram, R8::D).r(1, 4),  // CP D  [Z 1 H C]
        0xBB => cp8(reg, ram, R8::E).r(1, 4),  // CP E  [Z 1 H C]
        0xBC => cp8(reg, ram, R8::H).r(1, 4),  // CP H  [Z 1 H C]
        0xBD => cp8(reg, ram, R8::L).r(1, 4),  // CP L  [Z 1 H C]
        0xBE => cp8(reg, ram, Address::HL).r(1, 8),  // CP (HL)  [Z 1 H C]
        0xBF => cp8(reg, ram, R8::A).r(1, 4),  // CP A  [Z 1 H C]
        _ => undefined(reg, ram, opcode).r(1, 0),  // no row of this block
    }
}

/// Rows `0xC0` to `0xFF`: returns, jumps, calls and restarts, the stack,
/// the arithmetic on A and an immediate.
fn rows_c0_ff(opcode: u8, reg: &mut Registers, ram: &mut Ram) -> (row: (u8, u8))
    requires
        old(ram).wf(),
        0xC0 <= opcode <= 0xFF,
    ensures
        final(ram).wf(),
        *final(reg) == exec_spec(opcode, state(*old(reg), old(ram)@)).machine.reg,
        final(ram)@ == exec_spec(opcode, state(*old(reg), old(ram)@)).machine.mem,
        row.0 == exec_spec(opcode, state(*old(reg), old(ram)@)).pc_delta,
        row.1 == exec_spec(opcode, state(*old(reg), old(ram)@)).cycles,
{
    proof {
        lemma_fields(opcode);
    }
    match opcode {
        0xC0 => ret(reg, ram, Condition::NZ).branch(1, 8, 20),  // RET NZ  [- - - -]
        0xC1 => pop16(reg, ram, R16::BC).r(1, 12),  // POP BC  [- - - -]
        0xC2 => jp(reg, ram, Condition::NZ, Immediate16).branch(3, 12, 16),  // JP NZ,a16  [- - - -]
        0xC3 => jp(reg, ram, Condition::T, Immediate16).r(3, 16),  // JP a16  [- - - -]
        0xC4 => call(reg, ram, Condition::NZ, Immediate16).branch(3, 12, 24),  // CALL NZ,a16  [- - - -]
        0xC5 => push16(reg, ram, R16::BC).r(1, 16),  // PUSH BC  [- - - -]
        0xC6 => add8(reg, ram, Immediate8).r(2, 8),  // ADD A,d8  [Z 0 H C]
        0xC7 => rst(reg, ram, 0x00).r(1, 16),  // RST 00H  [- - - -]
        0xC8 => ret(reg, ram, Condition::Z).branch(1, 8, 20),  // RET Z  [- - - -]
        0xC9 => ret(reg, ram, Condition::T).r(1, 16),  // RET  [- - - -]
        0xCA => jp(reg, ram, Condition::Z, Immediate16).branch(3, 12, 16),  // JP Z,a16  [- - - -]
        0xCB => undefined(reg, ram, opcode).r(1, 0),  // PREFIX CB
        0xCC => call(reg, ram, Condition::Z, Immediate16).branch(3, 12, 24),  // CALL Z,a16  [- - - -]
        0xCD => call(reg, ram, Condition::T, Immediate16).r(3, 24),  // CALL a16  [- - - -]
        0xCE => adc8(reg, ram, Immediate8).r(2, 8),  // ADC A,d8  [Z 0 H C]
        0xCF => rst(reg, ram, 0x08).r(1, 16),  // RST 08H  [- - - -]
        0xD0 => ret(reg, ram, Condition::NC).branch(1, 8, 20),  // RET NC  [- - - -]
        0xD1 => pop16(reg, ram, R16::DE).r(1, 12),  // POP DE  [- - - -]
        0xD2 => jp(reg, ram, Condition::NC, Immediate16).branch(3, 12, 16),  // JP NC,a16  [- - - -]
        0xD3 => undefined(reg, ram, opcode).r(1, 0),  // no such instruction
        0xD4 => call(reg, ram, Condition::NC, Immediate16).branch(3, 12, 24),  // CALL NC,a16  [- - - -]
        0xD5 => push16(reg, ram, R16::DE).r(1, 16),  // PUSH DE  [- - - -]
        0xD6 => sub8(reg, ram, Immediate8).r(2, 8),  // SUB A,d8  [Z 1 H C]
        0xD7 => rst(reg, ram, 0x10).r(1, 16),  // RST 10H  [- - - -]
        0xD8 => ret(reg, ram, Condition::C).branch(1, 8, 20),  // RET C  [- - - -]
        0xD9 => undefined(reg, ram, opcode).r(1, 0),  // RETI: no kernel
        0xDA => jp(reg, ram, Condition::C, Immediate16).branch(3, 12, 16),  // JP C,a16  [- - - -]
        0xDB => undefined(reg, ram, opcode).r(1, 0),  // no such instruction
        0xDC => call(reg, ram, Condition::C, Immediate16).branch(3, 12, 24),  // CALL C,a16  [- - - -]
        0xDD => undefined(reg, ram, opcode).r(1, 0),  // no such instruction
        0xDE => sbc8(reg, ram, Immediate8).r(2, 8),  // SBC A,d8  [Z 1 H C]
        0xDF => rst(reg, ram, 0x18).r(1, 16),  // RST 18H  [- - - -]
        0xE0 => undefined(reg, ram, opcode).r(1, 0),  // LDH (a8),A: no kernel
        0xE1 => pop16(reg, ram, R16::HL).r(1, 12),  // POP HL  [- - - -]
        0xE2 => undefined(reg, ram, opcode).r(1, 0),  // LD (C),A: no kernel
        0xE3 => undefined(reg, ram, opcode).r(1, 0),  // no such instruction
        0xE4 => undefined(reg, ram, opcode).r(1, 0),  // no such instruction
        0xE5 => push16(reg, ram, R16::HL).r(1, 16),  // PUSH HL  [- - - -]
        0xE6 => and8(reg, ram, Immediate8).r(2, 8),  // AND d8  [Z 0 1 0]
        0xE7 => rst(reg, ram, 0x20).r(1, 16),  // RST 20H  [- - - -]
        0xE8 => add_sp(reg, ram, Immediate8).r(2, 16),  // ADD SP,r8  [0 0 H C]
        0xE9 => jp(reg, ram, Condition::T, R16::HL).r(1, 4),  // JP (HL)  [- - - -]
        0xEA => undefined(reg, ram, opcode).r(1, 0),  // LD (a16),A: no kernel
        0xEB => undefined(reg, ram, opcode).r(1, 0),  // no such instruction
        0xEC => undefined(reg, ram, opcode).r(1, 0),  // no such instruction
        0xED => undefined(reg, ram, opcode).r(1, 0),  // no such instruction
        0xEE => xor8(reg, ram, Immediate8).r(2, 8),  // XOR d8  [Z 0 0 0]
        0xEF => rst(reg, ram, 0x28).r(1, 16),  // RST 28H  [- - - -]
        0xF0 => undefined(reg, ram, opcode).r(1, 0),  // LDH A,(a8): no kernel
        0xF1 => pop16(reg, ram, R16::AF).r(1, 12),  // POP AF  [Z N H C]
        0xF2 => undefined(reg, ram, opcode).r(1, 0),  // LD A,(C): no kernel
        0xF3 => undefined(reg, ram, opcode).r(1, 0),  // DI: no kernel
        0xF4 => undefined(reg, ram, opcode).r(1, 0),  // no such instruction
        0xF5 => push16(reg, ram, R16::AF).r(1, 16),  // PUSH AF  [- - - -]
        0xF6 => or8(reg, ram, Immediate8).r(2, 8),  // OR d8  [Z 0 0 0]
        0xF7 => rst(reg, ram, 0x30).r(1, 16),  // RST 30H  [- - - -]
        0xF8 => undefined(reg, ram, opcode).r(1, 0),  // LD HL,SP+r8: no kernel
        0xF9 => ld16(reg, ram, R16::SP, R16::HL).r(1, 8),  // LD SP,HL  [- - - -]
        0xFA => undefined(reg, ram, opcode).r(1, 0),  // LD A,(a16): no kernel
        0xFB => undefined(reg, ram, opcode).r(1, 0),  // EI: no kernel
        0xFC => undefined(reg, ram, opcode).r(1, 0),  // no such instruction
        0xFD => undefined(reg, ram, opcode).r(1, 0),  // no such instruction
        0xFE => cp8(reg, ram, Immediate8).r(2, 8),  // CP d8  [Z 1 H C]
        0xFF => rst(reg, ram, 0x38).r(1, 16),  // RST 38H  [- - - -]
        _ => undefined(reg, ram, opcode).r(1, 0),  // no row of this block
    }
}

/// Runs the instruction of `opcode` from the primary table. The opcode is
/// the byte at PC; operands that follow it are read from PC + 1 on.
///
/// Returns the advance of the program counter, which the caller adds to PC,
/// and the cycles taken. An instruction that sets PC returns an advance of
/// zero, so that PC is never advanced twice.
pub fn exec(opcode: u8, reg: &mut Registers, ram: &mut Ram) -> (row: (u8, u8))
    requires
        old(ram).wf(),
    ensures
        final(ram).wf(),
        *final(reg) == exec_spec(opcode, state(*old(reg), old(ram)@)).machine.reg,
        final(ram)@ == exec_spec(opcode, state(*old(reg), old(ram)@)).machine.mem,
        row.0 == exec_spec(opcode, state(*old(reg), old(ram)@)).pc_delta,
        row.1 == exec_spec(opcode, state(*old(reg), old(ram)@)).cycles,
        final(reg).spec_get8(R8::F) & 0x0F == 0,
{
    let row = match opcode {
        0x00..=0x3F => rows_00_3f(opcode, reg, ram),
        0x40..=0x7F => rows_40_7f(opcode, reg, ram),
        0x80..=0xBF => rows_80_bf(opcode, reg, ram),
        0xC0..=0xFF => rows_c0_ff(opcode, reg, ram),
    };
    proof {
        lemma_flag_byte_low_nibble(reg.zero, reg.subtract, reg.half_carry, reg.carry);
    }
    row
}

/// Runs the instruction of `opcode` from the prefixed table, the byte that
/// follows `0xCB`.
pub fn exec_prefix_cb(opcode: u8, reg: &mut Registers, ram: &mut Ram) -> (row: (u8, u8))
    requires
        old(ram).wf(),
    ensures
        final(ram).wf(),
        *final(reg) == exec_prefix_cb_spec(opcode, state(*old(reg), old(ram)@)).machine.reg,
        final(ram)@ == exec_prefix_cb_spec(opcode, state(*old(reg), old(ram)@)).machine.mem,
        row.0 == exec_prefix_cb_spec(opcode, state(*old(reg), old(ram)@)).pc_delta,
        row.1 == exec_prefix_cb_spec(opcode, state(*old(reg), old(ram)@)).cycles,
        *final(reg) == *old(reg),
        final(ram)@ == old(ram)@,
        row == (1u8, 0u8),
{
    undefined(reg, ram, opcode).r(1, 0)
}

} // verus!
