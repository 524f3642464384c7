//! The register file: seven 8-bit registers, four flags, the stack pointer
//! and the program counter.
//!
//! The flags are kept as four truth values. The flag register F is the byte
//! that shows them in its high nibble, so its low nibble is zero in every
//! state.

use vstd::prelude::*;
use crate::gb::bus::{high_byte, low_byte, make_word, split_word, word};

verus! {

/// The names of the 8-bit registers.
#[derive(Clone, Copy, Debug, PartialEq, Eq, Structural)]
pub enum Register8 {
    A,
    B,
    C,
    D,
    E,
    F,
    H,
    L,
}

/// The names of the 16-bit registers. A pair is named high byte first: the
/// high byte of BC is B.
#[derive(Clone, Copy, Debug, PartialEq, Eq, Structural)]
pub enum Register16 {
    AF,
    BC,
    DE,
    HL,
    SP,
    PC,
}

/// The four flags: zero, subtract, half carry and carry.
#[derive(Clone, Copy, Debug, PartialEq, Eq, Structural)]
pub enum Flag {
    Z,
    N,
    H,
    C,
}

/// The conditions of jumps, calls and returns.
#[derive(Clone, Copy, Debug, PartialEq, Eq, Structural)]
pub enum Condition {
    /// Always.
    T,
    /// The zero flag is set.
    Z,
    /// The zero flag is clear.
    NZ,
    /// The carry flag is set.
    C,
    /// The carry flag is clear.
    NC,
}

/// The register file.
#[derive(Clone, Copy, Debug, PartialEq, Eq, Structural)]
pub struct Registers {
    pub a: u8,
    pub b: u8,
    pub c: u8,
    pub d: u8,
    pub e: u8,
    pub h: u8,
    pub l: u8,
    pub zero: bool,
    pub subtract: bool,
    pub half_carry: bool,
    pub carry: bool,
    pub sp: u16,
    pub pc: u16,
}

/// The flag register as a byte: Z in bit 7, N in bit 6, H in bit 5, C in
/// bit 4, and zeros in bits 3 to 0.
pub open spec fn flag_byte(zero: bool, subtract: bool, half_carry: bool, carry: bool) -> u8 {
    ((if zero { 0x80int } else { 0 }) + (if subtract { 0x40int } else { 0 })
        + (if half_carry { 0x20int } else { 0 }) + (if carry { 0x10int } else { 0 })) as u8
}

impl Registers {
    /// The state in which every register is zero and every flag is clear.
    pub open spec fn zeroed() -> Registers {
        Registers {
            a: 0,
            b: 0,
            c: 0,
            d: 0,
            e: 0,
            h: 0,
            l: 0,
            zero: false,
            subtract: false,
            half_carry: false,
            carry: false,
            sp: 0,
            pc: 0,
        }
    }

    /// The byte in register `r`.
    pub open spec fn spec_get8(self, r: Register8) -> u8 {
        match r {
            Register8::A => self.a,
            Register8::B => self.b,
            Register8::C => self.c,
            Register8::D => self.d,
            Register8::E => self.e,
            Register8::F => flag_byte(self.zero, self.subtract, self.half_carry, self.carry),
            Register8::H => self.h,
            Register8::L => self.l,
        }
    }

    /// The state after `v` was written to register `r`. Of a byte written
    /// to F only bits 7 to 4 are kept.
    pub open spec fn spec_set8(self, r: Register8, v: u8) -> Registers {
        match r {
            Register8::A => Registers { a: v, ..self },
            Register8::B => Registers { b: v, ..self },
            Register8::C => Registers { c: v, ..self },
            Register8::D => Registers { d: v, ..self },
            Register8::E => Registers { e: v, ..self },
            Register8::F => Registers {
                zero: v & 0x80 != 0,
                subtract: v & 0x40 != 0,
                half_carry: v & 0x20 != 0,
                carry: v & 0x10 != 0,
                ..self
            },
            Register8::H => Registers { h: v, ..self },
            Register8::L => Registers { l: v, ..self },
        }
    }

    /// The word in register `rr`.
    pub open spec fn spec_get16(self, rr: Register16) -> u16 {
        match rr {
            Register16::AF => word(self.spec_get8(Register8::F), self.a),
            Register16::BC => word(self.c, self.b),
            Register16::DE => word(self.e, self.d),
            Register16::HL => word(self.l, self.h),
            Register16::SP => self.sp,
            Register16::PC => self.pc,
        }
    }

    /// The state after `v` was written to register `rr`. A pair takes the
    /// high byte in its first register and the low byte in its second.
    pub open spec fn spec_set16(self, rr: Register16, v: u16) -> Registers {
        match rr {
            Register16::AF => self.spec_set8(Register8::A, high_byte(v)).spec_set8(
                Register8::F,
                low_byte(v),
            ),
            Register16::BC => Registers { b: high_byte(v), c: low_byte(v), ..self },
            Register16::DE => Registers { d: high_byte(v), e: low_byte(v), ..self },
            Register16::HL => Registers { h: high_byte(v), l: low_byte(v), ..self },
            Register16::SP => Registers { sp: v, ..self },
            Register16::PC => Registers { pc: v, ..self },
        }
    }

    /// Whether flag `f` is set.
    pub open spec fn spec_flag(self, f: Flag) -> bool {
        match f {
            Flag::Z => self.zero,
            Flag::N => self.subtract,
            Flag::H => self.half_carry,
            Flag::C => self.carry,
        }
    }

    /// The state after flag `f` was set to `v`.
    pub open spec fn spec_set_flag(self, f: Flag, v: bool) -> Registers {
        match f {
            Flag::Z => Registers { zero: v, ..self },
            Flag::N => Registers { subtract: v, ..self },
            Flag::H => Registers { half_carry: v, ..self },
            Flag::C => Registers { carry: v, ..self },
        }
    }

    /// The state after all four flags were set.
    pub open spec fn spec_set_flags(self, zero: bool, subtract: bool, half_carry: bool, carry: bool)
        -> Registers {
        Registers { zero, subtract, half_carry, carry, ..self }
    }

    /// Whether condition `cc` holds of the flags.
    pub open spec fn spec_test(self, cc: Condition) -> bool {
        match cc {
            Condition::T => true,
            Condition::Z => self.zero,
            Condition::NZ => !self.zero,
            Condition::C => self.carry,
            Condition::NC => !self.carry,
        }
    }

    /// The register file at power-on: all zero.
    pub fn new() -> (regs: Registers)
        ensures
            regs == Registers::zeroed(),
    {
        Registers {
            a: 0,
            b: 0,
            c: 0,
            d: 0,
            e: 0,
            h: 0,
            l: 0,
            zero: false,
            subtract: false,
            half_carry: false,
            carry: false,
            sp: 0,
            pc: 0,
        }
    }

    /// Reads an 8-bit register. The low nibble of F reads as zero.
    pub fn get8(&self, r: Register8) -> (v: u8)
        ensures
            v == self.spec_get8(r),
            r == Register8::F ==> v & 0x0F == 0,
    {
        proof {
            lemma_flag_byte_low_nibble(self.zero, self.subtract, self.half_carry, self.carry);
        }
        match r {
            Register8::A => self.a,
            Register8::B => self.b,
            Register8::C => self.c,
            Register8::D => self.d,
            Register8::E => self.e,
            Register8::F => {
                let z: u8 = if self.zero { 0x80 } else { 0 };
                let n: u8 = if self.subtract { 0x40 } else { 0 };
                let h: u8 = if self.half_carry { 0x20 } else { 0 };
                let c: u8 = if self.carry { 0x10 } else { 0 };
                z + n + h + c
            },
            Register8::H => self.h,
            Register8::L => self.l,
        }
    }

    /// Writes an 8-bit register. A write to F keeps `v & 0xF0`.
    pub fn set8(&mut self, r: Register8, v: u8)
        ensures
            *final(self) == old(self).spec_set8(r, v),
            final(self).spec_get8(r) == (if r == Register8::F { v & 0xF0 } else { v }),
    {
        proof {
            lemma_flags_of_byte(v);
        }
        match r {
            Register8::A => { self.a = v; },
            Register8::B => { self.b = v; },
            Register8::C => { self.c = v; },
            Register8::D => { self.d = v; },
            Register8::E => { self.e = v; },
            Register8::F => {
                self.zero = v & 0x80 != 0;
                self.subtract = v & 0x40 != 0;
                self.half_carry = v & 0x20 != 0;
                self.carry = v & 0x10 != 0;
            },
            Register8::H => { self.h = v; },
            Register8::L => { self.l = v; },
        }
    }

    /// Reads a 16-bit register.
    pub fn get16(&self, rr: Register16) -> (v: u16)
        ensures
            v == self.spec_get16(rr),
    {
        match rr {
            Register16::AF => make_word(self.get8(Register8::F), self.a),
            Register16::BC => make_word(self.c, self.b),
            Register16::DE => make_word(self.e, self.d),
            Register16::HL => make_word(self.l, self.h),
            Register16::SP => self.sp,
            Register16::PC => self.pc,
        }
    }

    /// Writes a 16-bit register. A write to AF keeps `v & 0xFFF0`.
    pub fn set16(&mut self, rr: Register16, v: u16)
        ensures
            *final(self) == old(self).spec_set16(rr, v),
            final(self).spec_get16(rr) == (if rr == Register16::AF { v & 0xFFF0 } else { v }),
    {
        proof {
            lemma_set16_get16(*self, rr, v);
        }
        let (lo, hi) = split_word(v);
        match rr {
            Register16::AF => {
                self.set8(Register8::A, hi);
                self.set8(Register8::F, lo);
            },
            Register16::BC => {
                self.b = hi;
                self.c = lo;
            },
            Register16::DE => {
                self.d = hi;
                self.e = lo;
            },
            Register16::HL => {
                self.h = hi;
                self.l = lo;
            },
            Register16::SP => { self.sp = v; },
            Register16::PC => { self.pc = v; },
        }
    }

    /// Reads a flag.
    pub fn flag(&self, f: Flag) -> (v: bool)
        ensures
            v == self.spec_flag(f),
    {
        match f {
            Flag::Z => self.zero,
            Flag::N => self.subtract,
            Flag::H => self.half_carry,
            Flag::C => self.carry,
        }
    }

    /// Writes a flag and leaves the other three.
    pub fn set_flag(&mut self, f: Flag, v: bool)
        ensures
            *final(self) == old(self).spec_set_flag(f, v),
    {
        match f {
            Flag::Z => { self.zero = v; },
            Flag::N => { self.subtract = v; },
            Flag::H => { self.half_carry = v; },
            Flag::C => { self.carry = v; },
        }
    }

    /// Writes all four flags.
    pub fn set_flags(&mut self, zero: bool, subtract: bool, half_carry: bool, carry: bool)
        ensures
            *final(self) == old(self).spec_set_flags(zero, subtract, half_carry, carry),
    {
        self.zero = zero;
        self.subtract = subtract;
        self.half_carry = half_carry;
        self.carry = carry;
    }

    /// Evaluates a condition against the flags.
    pub fn test(&self, cc: Condition) -> (holds: bool)
        ensures
            holds == self.spec_test(cc),
    {
        match cc {
            Condition::T => true,
            Condition::Z => self.zero,
            Condition::NZ => !self.zero,
            Condition::C => self.carry,
            Condition::NC => !self.carry,
        }
    }
}

/// A byte that is a multiple of 16 has a zero low nibble, and the other way
/// round.
proof fn lemma_low_nibble_zero(x: u8)
    ensures
        (x & 0x0F == 0) <==> (x % 16 == 0),
{
    assert((x & 0x0F == 0) <==> (x % 16 == 0)) by (bit_vector);
}

/// The low nibble of F is zero, whatever the flags.
pub proof fn lemma_flag_byte_low_nibble(zero: bool, subtract: bool, half_carry: bool, carry: bool)
    ensures
        flag_byte(zero, subtract, half_carry, carry) & 0x0F == 0,
{
    lemma_low_nibble_zero(flag_byte(zero, subtract, half_carry, carry));
}

/// The flags taken from a byte show its high nibble: as a byte they are
/// `v & 0xF0`.
pub proof fn lemma_flags_of_byte(v: u8)
    ensures
        flag_byte(v & 0x80 != 0, v & 0x40 != 0, v & 0x20 != 0, v & 0x10 != 0) == v & 0xF0,
{
    let z: u8 = if v & 0x80 != 0 { 0x80 } else { 0 };
    let n: u8 = if v & 0x40 != 0 { 0x40 } else { 0 };
    let h: u8 = if v & 0x20 != 0 { 0x20 } else { 0 };
    let c: u8 = if v & 0x10 != 0 { 0x10 } else { 0 };
    assert(z == v & 0x80 && n == v & 0x40 && h == v & 0x20 && c == v & 0x10) by (bit_vector)
        requires
            z == (if v & 0x80 != 0 { 0x80u8 } else { 0 }),
            n == (if v & 0x40 != 0 { 0x40u8 } else { 0 }),
            h == (if v & 0x20 != 0 { 0x20u8 } else { 0 }),
            c == (if v & 0x10 != 0 { 0x10u8 } else { 0 }),
    ;
    assert((v & 0x80) + (v & 0x40) + (v & 0x20) + (v & 0x10) == v & 0xF0) by (bit_vector);
}

/// A register that was written reads back what was written; F reads back
/// the high nibble only.
pub proof fn lemma_set8_get8(regs: Registers, r: Register8, v: u8)
    ensures
        regs.spec_set8(r, v).spec_get8(r) == (if r == Register8::F { v & 0xF0 } else { v }),
{
    lemma_flags_of_byte(v);
}

/// A 16-bit register that was written reads back what was written; AF reads
/// back `v & 0xFFF0`, since the low nibble of F is zero.
pub proof fn lemma_set16_get16(regs: Registers, rr: Register16, v: u16)
    ensures
        regs.spec_set16(rr, v).spec_get16(rr) == (if rr == Register16::AF { v & 0xFFF0 } else { v }),
{
    lemma_flags_of_byte(low_byte(v));
    let lo = low_byte(v);
    let hi = high_byte(v);
    assert(word(lo & 0xF0, hi) == v & 0xFFF0) by {
        let kept: u8 = lo & 0xF0;
        assert(kept as u16 + (hi as u16) * 256 == v & 0xFFF0) by (bit_vector)
            requires
                lo == (v % 256) as u8,
                hi == (v / 256) as u8,
                kept == lo & 0xF0,
        ;
    }
}

/// The flags read from the flag byte are the flags it was made of.
pub proof fn lemma_byte_of_flags(zero: bool, subtract: bool, half_carry: bool, carry: bool)
    ensures
        ({
            let f = flag_byte(zero, subtract, half_carry, carry);
            &&& (f & 0x80 != 0) == zero
            &&& (f & 0x40 != 0) == subtract
            &&& (f & 0x20 != 0) == half_carry
            &&& (f & 0x10 != 0) == carry
        }),
{
    let f = flag_byte(zero, subtract, half_carry, carry);
    assert((f & 0x80 != 0) == (f >= 0x80) && (f & 0x40 != 0) == (f % 0x80 >= 0x40) && (f & 0x20
        != 0) == (f % 0x40 >= 0x20) && (f & 0x10 != 0) == (f % 0x20 >= 0x10)) by (bit_vector);
}

/// Writing a 16-bit register with the word it holds changes nothing.
pub proof fn lemma_get16_set16(regs: Registers, rr: Register16)
    ensures
        regs.spec_set16(rr, regs.spec_get16(rr)) == regs,
{
    lemma_byte_of_flags(regs.zero, regs.subtract, regs.half_carry, regs.carry);
}

} // verus!
