//! The instruction kernels: one function for each mnemonic, written once
//! for all operands.
//!
//! A kernel changes registers and memory and reports, as a `Flow`, whether
//! it set the program counter itself. It knows nothing of instruction
//! lengths and cycle counts, which are the opcode table's.
//!
//! What a kernel does is a function on `Machine` of the same name. These
//! functions are opaque, so that a proof about the opcode table handles
//! them by name; `reveal` one to reason about what the kernel does.

use vstd::prelude::*;
use crate::gb::bus::Bus;
use crate::gb::cpu::machine::{state, Machine};
use crate::gb::cpu::operand::{
    Operand16, Operand8, Readable16, Readable8, Writable16, Writable8,
};
use crate::gb::cpu::register::{lemma_get16_set16, Condition, Register16, Registers};
use crate::gb::ram::Ram;

verus! {

/// What a kernel reports to the opcode table.
#[derive(Clone, Copy, Debug, PartialEq, Eq, Structural)]
pub struct Flow {
    /// Whether the kernel set the program counter: a jump, call or return
    /// that was taken.
    pub jumped: bool,
}

/// The program counter advance and the cycle count of an instruction of
/// `pc_delta` bytes that costs `cycles` cycles, or `taken_cycles` where it
/// set the program counter itself; in that case the advance is zero, since
/// the program counter already holds the address to go on at.
pub open spec fn timing(jumped: bool, pc_delta: u8, cycles: u8, taken_cycles: u8) -> (u8, u8) {
    if jumped {
        (0, taken_cycles)
    } else {
        (pc_delta, cycles)
    }
}

impl Flow {
    /// The table entry of an instruction that costs the same whether or not
    /// it set the program counter.
    pub fn r(self, pc_delta: u8, cycles: u8) -> (row: (u8, u8))
        ensures
            row == timing(self.jumped, pc_delta, cycles, cycles),
    {
        if self.jumped {
            (0, cycles)
        } else {
            (pc_delta, cycles)
        }
    }

    /// The table entry of a conditional instruction: `cycles` where the
    /// condition failed, `taken_cycles` where it held.
    pub fn branch(self, pc_delta: u8, cycles: u8, taken_cycles: u8) -> (row: (u8, u8))
        ensures
            row == timing(self.jumped, pc_delta, cycles, taken_cycles),
    {
        if self.jumped {
            (0, taken_cycles)
        } else {
            (pc_delta, cycles)
        }
    }
}

/// The result of an 8-bit arithmetic operation: the byte and the flags.
#[derive(Clone, Copy, Debug, PartialEq, Eq, Structural)]
pub struct Alu {
    pub value: u8,
    pub zero: bool,
    pub subtract: bool,
    pub half_carry: bool,
    pub carry: bool,
}

/// `a + x + carry_in` in eight bits. H is the carry out of bit 3, C the
/// carry out of bit 7, both of the whole sum.
pub open spec fn sum8(a: u8, x: u8, carry_in: bool) -> Alu {
    let c: int = if carry_in { 1 } else { 0 };
    let total = a + x + c;
    Alu {
        value: (total % 256) as u8,
        zero: total % 256 == 0,
        subtract: false,
        half_carry: a % 16 + x % 16 + c > 15,
        carry: total > 255,
    }
}

/// `a - x - borrow_in` in eight bits. H is the borrow from bit 4, C the
/// borrow from bit 8, both of the whole difference.
pub open spec fn difference8(a: u8, x: u8, borrow_in: bool) -> Alu {
    let c: int = if borrow_in { 1 } else { 0 };
    let total = a - x - c;
    Alu {
        value: (total % 256) as u8,
        zero: total % 256 == 0,
        subtract: true,
        half_carry: a % 16 < x % 16 + c,
        carry: a < x + c,
    }
}

/// The result of a 16-bit addition: the word and the two carries.
#[derive(Clone, Copy, Debug, PartialEq, Eq, Structural)]
pub struct Alu16 {
    pub value: u16,
    pub half_carry: bool,
    pub carry: bool,
}

/// `a + x` in sixteen bits, with the carry out of bit 11 and the carry out
/// of bit 15.
pub open spec fn sum16(a: u16, x: u16) -> Alu16 {
    Alu16 {
        value: ((a + x) % 0x1_0000) as u16,
        half_carry: a % 0x1000 + x % 0x1000 > 0xFFF,
        carry: a + x > 0xFFFF,
    }
}

/// A bitwise result with its flags: Z from the value, N and C clear, H as
/// given.
pub open spec fn logic8(value: u8, half_carry: bool) -> Alu {
    Alu { value, zero: value == 0, subtract: false, half_carry, carry: false }
}

/// The offset byte of a relative jump as a number from -128 to 127.
pub open spec fn signed(e: u8) -> int {
    if e < 128 {
        e as int
    } else {
        e as int - 256
    }
}

/// The address `signed(e)` bytes from `base`, modulo 2^16.
pub open spec fn displaced(base: u16, e: u8) -> u16 {
    ((base as int + signed(e)) % 0x1_0000) as u16
}

/// The word `n` above `w`, modulo 2^16; `n` may be negative.
pub open spec fn offset16(w: u16, n: int) -> u16 {
    ((w as int + n) % 0x1_0000) as u16
}

impl Machine {
    /// The state with the registers replaced.
    pub open spec fn with_reg(self, reg: Registers) -> Machine {
        Machine { reg, ..self }
    }

    /// The state with the program counter set to `pc`.
    pub open spec fn with_pc(self, pc: u16) -> Machine {
        Machine { reg: Registers { pc, ..self.reg }, ..self }
    }

    /// The state after A and the flags took an arithmetic result.
    pub open spec fn with_result(self, alu: Alu) -> Machine {
        Machine {
            reg: Registers {
                a: alu.value,
                zero: alu.zero,
                subtract: alu.subtract,
                half_carry: alu.half_carry,
                carry: alu.carry,
                ..self.reg
            },
            ..self
        }
    }

    /// The state after the flags, and only they, took those of an
    /// arithmetic result.
    pub open spec fn with_flags_of(self, alu: Alu) -> Machine {
        Machine {
            reg: Registers {
                zero: alu.zero,
                subtract: alu.subtract,
                half_carry: alu.half_carry,
                carry: alu.carry,
                ..self.reg
            },
            ..self
        }
    }

    /// The state after `v` was pushed: SP goes down by two, then the word
    /// is stored at SP, low byte at the lower address.
    pub open spec fn push_word(self, v: u16) -> Machine {
        let sp = offset16(self.reg.sp, -2);
        Machine { reg: Registers { sp, ..self.reg }, mem: Ram::spec_write16(self.mem, sp, v) }
    }

    /// The word on top of the stack: the word at SP.
    pub open spec fn top_word(self) -> u16 {
        Ram::spec_read16(self.mem, self.reg.sp)
    }

    /// The state after a word was popped: SP goes up by two.
    pub open spec fn pop_word(self) -> Machine {
        Machine { reg: Registers { sp: offset16(self.reg.sp, 2), ..self.reg }, ..self }
    }

    /// LD: `dst` takes the byte of `src`. No flag changes.
    #[verifier::opaque]
    pub open spec fn ld8(self, dst: Operand8, src: Operand8) -> Machine {
        self.write8(dst, self.read8(src))
    }

    /// LD: `dst` takes the word of `src`. No flag changes.
    #[verifier::opaque]
    pub open spec fn ld16(self, dst: Operand16, src: Operand16) -> Machine {
        self.write16(dst, self.read16(src))
    }

    /// INC: the byte goes up by one modulo 256. Z from the result, N clear,
    /// H set where the low nibble was 15, C as before.
    #[verifier::opaque]
    pub open spec fn inc8(self, x: Operand8) -> Machine {
        let old = self.read8(x);
        let new = ((old + 1) % 256) as u8;
        let next = self.write8(x, new);
        next.with_reg(
            Registers { zero: new == 0, subtract: false, half_carry: old % 16 == 15, ..next.reg },
        )
    }

    /// DEC: the byte goes down by one modulo 256. Z from the result, N set,
    /// H set where the low nibble was 0, C as before.
    #[verifier::opaque]
    pub open spec fn dec8(self, x: Operand8) -> Machine {
        let old = self.read8(x);
        let new = ((old - 1) % 256) as u8;
        let next = self.write8(x, new);
        next.with_reg(
            Registers { zero: new == 0, subtract: true, half_carry: old % 16 == 0, ..next.reg },
        )
    }

    /// INC: the word goes up by one modulo 2^16. No flag changes.
    #[verifier::opaque]
    pub open spec fn inc16(self, x: Operand16) -> Machine {
        self.write16(x, offset16(self.read16(x), 1))
    }

    /// DEC: the word goes down by one modulo 2^16. No flag changes.
    #[verifier::opaque]
    pub open spec fn dec16(self, x: Operand16) -> Machine {
        self.write16(x, offset16(self.read16(x), -1))
    }

    /// ADD A: A takes `A + src`.
    #[verifier::opaque]
    pub open spec fn add8(self, src: Operand8) -> Machine {
        self.with_result(sum8(self.reg.a, self.read8(src), false))
    }

    /// ADC A: A takes `A + src + C`.
    #[verifier::opaque]
    pub open spec fn adc8(self, src: Operand8) -> Machine {
        self.with_result(sum8(self.reg.a, self.read8(src), self.reg.carry))
    }

    /// SUB A: A takes `A - src`.
    #[verifier::opaque]
    pub open spec fn sub8(self, src: Operand8) -> Machine {
        self.with_result(difference8(self.reg.a, self.read8(src), false))
    }

    /// SBC A: A takes `A - src - C`.
    #[verifier::opaque]
    pub open spec fn sbc8(self, src: Operand8) -> Machine {
        self.with_result(difference8(self.reg.a, self.read8(src), self.reg.carry))
    }

    /// AND: A takes `A & src`. H is set.
    #[verifier::opaque]
    pub open spec fn and8(self, src: Operand8) -> Machine {
        self.with_result(logic8(self.reg.a & self.read8(src), true))
    }

    /// OR: A takes `A | src`. H is clear.
    #[verifier::opaque]
    pub open spec fn or8(self, src: Operand8) -> Machine {
        self.with_result(logic8(self.reg.a | self.read8(src), false))
    }

    /// XOR: A takes `A ^ src`. H is clear.
    #[verifier::opaque]
    pub open spec fn xor8(self, src: Operand8) -> Machine {
        self.with_result(logic8(self.reg.a ^ self.read8(src), false))
    }

    /// CP: the flags of `A - src`; A stays.
    #[verifier::opaque]
    pub open spec fn cp8(self, src: Operand8) -> Machine {
        self.with_flags_of(difference8(self.reg.a, self.read8(src), false))
    }

    /// ADD HL: HL takes `HL + src` modulo 2^16. N clear, H the carry out of
    /// bit 11, C the carry out of bit 15, Z as before.
    #[verifier::opaque]
    pub open spec fn add16(self, src: Operand16) -> Machine {
        let sum = sum16(self.reg.spec_get16(Register16::HL), self.read16(src));
        self.with_reg(
            Registers {
                subtract: false,
                half_carry: sum.half_carry,
                carry: sum.carry,
                ..self.reg.spec_set16(Register16::HL, sum.value)
            },
        )
    }

    /// ADD SP: SP takes `SP + signed(src)` modulo 2^16. Z and N clear; H
    /// and C are the carries out of bit 3 and bit 7 of the low byte of SP
    /// plus the offset byte, both taken as unsigned.
    #[verifier::opaque]
    pub open spec fn add_sp(self, src: Operand8) -> Machine {
        let sp = self.reg.sp;
        let e = self.read8(src);
        self.with_reg(
            Registers {
                sp: displaced(sp, e),
                zero: false,
                subtract: false,
                half_carry: sp % 16 + e % 16 > 15,
                carry: sp % 256 + e > 255,
                ..self.reg
            },
        )
    }

    /// JR: where `cc` holds, PC takes `PC + 2 + signed(src)` modulo 2^16.
    #[verifier::opaque]
    pub open spec fn jr(self, cc: Condition, src: Operand8) -> Machine {
        if self.reg.spec_test(cc) {
            self.with_pc(displaced(offset16(self.reg.pc, 2), self.read8(src)))
        } else {
            self
        }
    }

    /// JP: where `cc` holds, PC takes the word of `src`.
    #[verifier::opaque]
    pub open spec fn jp(self, cc: Condition, src: Operand16) -> Machine {
        if self.reg.spec_test(cc) {
            self.with_pc(self.read16(src))
        } else {
            self
        }
    }

    /// CALL: where `cc` holds, the address after the three bytes of the
    /// call is pushed and PC takes the word of `src`.
    #[verifier::opaque]
    pub open spec fn call(self, cc: Condition, src: Operand16) -> Machine {
        if self.reg.spec_test(cc) {
            self.push_word(offset16(self.reg.pc, 3)).with_pc(self.read16(src))
        } else {
            self
        }
    }

    /// RET: where `cc` holds, PC takes the word popped from the stack.
    #[verifier::opaque]
    pub open spec fn ret(self, cc: Condition) -> Machine {
        if self.reg.spec_test(cc) {
            self.pop_word().with_pc(self.top_word())
        } else {
            self
        }
    }

    /// RST: the address after the one byte of the instruction is pushed and
    /// PC takes `vector`.
    #[verifier::opaque]
    pub open spec fn rst(self, vector: u8) -> Machine {
        self.push_word(offset16(self.reg.pc, 1)).with_pc(vector as u16)
    }

    /// PUSH: the word of `src` is pushed.
    #[verifier::opaque]
    pub open spec fn push16(self, src: Operand16) -> Machine {
        self.push_word(self.read16(src))
    }

    /// POP: `dst` takes the word popped from the stack. Popped into AF,
    /// the low nibble of F stays zero.
    #[verifier::opaque]
    pub open spec fn pop16(self, dst: Operand16) -> Machine {
        self.pop_word().write16(dst, self.top_word())
    }
}

/// The stack pointer and the program counter are words: whatever is added
/// to one, the result is the sum modulo 2^16 and lies between 0 and
/// `0xFFFF`. The word after `0xFFFF` is 0 and the word before 0 is `0xFFFF`.
pub proof fn lemma_words_wrap(reg: Registers, n: int)
    ensures
        0 <= reg.sp <= 0xFFFF,
        0 <= reg.pc <= 0xFFFF,
        offset16(reg.sp, n) == (reg.sp + n) % 0x1_0000,
        offset16(reg.pc, n) == (reg.pc + n) % 0x1_0000,
        0 <= offset16(reg.sp, n) <= 0xFFFF,
        0 <= offset16(reg.pc, n) <= 0xFFFF,
        offset16(0xFFFF, 1) == 0,
        offset16(0, -1) == 0xFFFF,
{
}

/// A word that was pushed is the word on top of the stack, and popping it
/// puts the stack pointer back where it was, wherever the stack lies.
pub proof fn lemma_push_pop(m: Machine, v: u16)
    requires
        m.wf(),
    ensures
        m.push_word(v).top_word() == v,
        m.push_word(v).pop_word().reg == m.reg,
        m.push_word(v).wf(),
{
}

/// PUSH of a register followed by POP into the same register leaves every
/// register as it was, the stack pointer and the flags included.
pub proof fn lemma_push16_pop16(m: Machine, rr: Register16)
    requires
        m.wf(),
    ensures
        m.push16(Operand16::Register(rr)).pop16(Operand16::Register(rr)).reg == m.reg,
{
    reveal(Machine::push16);
    reveal(Machine::pop16);
    let v = m.reg.spec_get16(rr);
    let pushed = m.push_word(v);
    lemma_push_pop(m, v);
    lemma_get16_set16(m.reg, rr);
    assert(pushed.pop_word().reg == m.reg);
}

/// The low nibble of a byte and the low bits of a word, as masks and as
/// remainders: the carries that the flags show can be read either way.
pub proof fn lemma_low_bits(x: u8, w: u16)
    ensures
        x & 0x0F == x % 16,
        w & 0x0F == w % 16,
        w & 0xFF == w % 256,
        w & 0x0FFF == w % 0x1000,
{
    assert(x & 0x0F == x % 16) by (bit_vector);
    assert(w & 0x0F == w % 16) by (bit_vector);
    assert(w & 0xFF == w % 256) by (bit_vector);
    assert(w & 0x0FFF == w % 0x1000) by (bit_vector);
}

/// Adds two bytes and a carry.
pub fn add_bytes(a: u8, x: u8, carry_in: bool) -> (alu: Alu)
    ensures
        alu == sum8(a, x, carry_in),
{
    proof {
        lemma_low_bits(a, 0);
        lemma_low_bits(x, 0);
    }
    let c: u8 = if carry_in { 1 } else { 0 };
    let value = a.wrapping_add(x).wrapping_add(c);
    Alu {
        value,
        zero: value == 0,
        subtract: false,
        half_carry: (a & 0x0F) + (x & 0x0F) + c > 0x0F,
        carry: a as u16 + x as u16 + c as u16 > 0xFF,
    }
}

/// Subtracts a byte and a borrow from a byte.
pub fn sub_bytes(a: u8, x: u8, borrow_in: bool) -> (alu: Alu)
    ensures
        alu == difference8(a, x, borrow_in),
{
    proof {
        lemma_low_bits(a, 0);
        lemma_low_bits(x, 0);
    }
    let c: u8 = if borrow_in { 1 } else { 0 };
    let value = a.wrapping_sub(x).wrapping_sub(c);
    Alu {
        value,
        zero: value == 0,
        subtract: true,
        half_carry: (a & 0x0F) < (x & 0x0F) + c,
        carry: (a as u16) < x as u16 + c as u16,
    }
}

/// The address `signed(e)` bytes from `base`.
pub fn displace(base: u16, e: u8) -> (addr: u16)
    ensures
        addr == displaced(base, e),
{
    if e < 0x80 {
        base.wrapping_add(e as u16)
    } else {
        base.wrapping_sub(0x100 - e as u16)
    }
}

/// Pushes a word on the stack.
pub fn push_word(reg: &mut Registers, ram: &mut Ram, v: u16)
    requires
        old(ram).wf(),
    ensures
        final(ram).wf(),
        state(*final(reg), final(ram)@) == state(*old(reg), old(ram)@).push_word(v),
{
    reg.sp = reg.sp.wrapping_sub(2);
    ram.write16(reg.sp, v);
}

/// Pops a word off the stack.
pub fn pop_word(reg: &mut Registers, ram: &Ram) -> (v: u16)
    requires
        ram.wf(),
    ensures
        v == state(*old(reg), ram@).top_word(),
        state(*final(reg), ram@) == state(*old(reg), ram@).pop_word(),
{
    let v = ram.read16(reg.sp);
    reg.sp = reg.sp.wrapping_add(2);
    v
}

/// LD `dst`, `src`.
pub fn ld8<D: Writable8, S: Readable8>(reg: &mut Registers, ram: &mut Ram, dst: D, src: S) -> (flow:
    Flow)
    requires
        old(ram).wf(),
    ensures
        final(ram).wf(),
        state(*final(reg), final(ram)@) == state(*old(reg), old(ram)@).ld8(
            dst.operand(),
            src.operand(),
        ),
        !flow.jumped,
{
    proof {
        reveal(Machine::ld8);
    }
    let v = src.read(reg, ram);
    dst.write(reg, ram, v);
    Flow { jumped: false }
}

/// LD `dst`, `src` on words.
pub fn ld16<D: Writable16, S: Readable16>(
    reg: &mut Registers,
    ram: &mut Ram,
    dst: D,
    src: S,
) -> (flow: Flow)
    requires
        old(ram).wf(),
    ensures
        final(ram).wf(),
        state(*final(reg), final(ram)@) == state(*old(reg), old(ram)@).ld16(
            dst.operand(),
            src.operand(),
        ),
        !flow.jumped,
{
    proof {
        reveal(Machine::ld16);
    }
    let v = src.read(reg, ram);
    dst.write(reg, ram, v);
    Flow { jumped: false }
}

/// INC `x`.
pub fn inc8<T: Writable8>(reg: &mut Registers, ram: &mut Ram, x: T) -> (flow: Flow)
    requires
        old(ram).wf(),
    ensures
        final(ram).wf(),
        state(*final(reg), final(ram)@) == state(*old(reg), old(ram)@).inc8(x.operand()),
        !flow.jumped,
{
    proof {
        reveal(Machine::inc8);
    }
    proof {
        lemma_low_bits(state(*reg, ram@).read8(x.operand()), 0);
    }
    let old = x.read(reg, ram);
    let new = old.wrapping_add(1);
    x.write(reg, ram, new);
    reg.zero = new == 0;
    reg.subtract = false;
    reg.half_carry = old & 0x0F == 0x0F;
    Flow { jumped: false }
}

/// DEC `x`.
pub fn dec8<T: Writable8>(reg: &mut Registers, ram: &mut Ram, x: T) -> (flow: Flow)
    requires
        old(ram).wf(),
    ensures
        final(ram).wf(),
        state(*final(reg), final(ram)@) == state(*old(reg), old(ram)@).dec8(x.operand()),
        !flow.jumped,
{
    proof {
        reveal(Machine::dec8);
    }
    proof {
        lemma_low_bits(state(*reg, ram@).read8(x.operand()), 0);
    }
    let old = x.read(reg, ram);
    let new = old.wrapping_sub(1);
    x.write(reg, ram, new);
    reg.zero = new == 0;
    reg.subtract = true;
    reg.half_carry = old & 0x0F == 0;
    Flow { jumped: false }
}

/// INC `x` on a word.
pub fn inc16<T: Writable16>(reg: &mut Registers, ram: &mut Ram, x: T) -> (flow: Flow)
    requires
        old(ram).wf(),
    ensures
        final(ram).wf(),
        state(*final(reg), final(ram)@) == state(*old(reg), old(ram)@).inc16(x.operand()),
        !flow.jumped,
{
    proof {
        reveal(Machine::inc16);
    }
    let v = x.read(reg, ram);
    x.write(reg, ram, v.wrapping_add(1));
    Flow { jumped: false }
}

/// DEC `x` on a word.
pub fn dec16<T: Writable16>(reg: &mut Registers, ram: &mut Ram, x: T) -> (flow: Flow)
    requires
        old(ram).wf(),
    ensures
        final(ram).wf(),
        state(*final(reg), final(ram)@) == state(*old(reg), old(ram)@).dec16(x.operand()),
        !flow.jumped,
{
    proof {
        reveal(Machine::dec16);
    }
    let v = x.read(reg, ram);
    x.write(reg, ram, v.wrapping_sub(1));
    Flow { jumped: false }
}

/// Stores an arithmetic result in A and the flags.
fn accumulate(reg: &mut Registers, alu: Alu)
    ensures
        *final(reg) == (Registers {
            a: alu.value,
            zero: alu.zero,
            subtract: alu.subtract,
            half_carry: alu.half_carry,
            carry: alu.carry,
            ..*old(reg)
        }),
{
    reg.a = alu.value;
    reg.set_flags(alu.zero, alu.subtract, alu.half_carry, alu.carry);
}

/// ADD A, `src`.
pub fn add8<S: Readable8>(reg: &mut Registers, ram: &mut Ram, src: S) -> (flow: Flow)
    requires
        old(ram).wf(),
    ensures
        final(ram).wf(),
        state(*final(reg), final(ram)@) == state(*old(reg), old(ram)@).add8(src.operand()),
        !flow.jumped,
{
    proof {
        reveal(Machine::add8);
    }
    let x = src.read(reg, ram);
    accumulate(reg, add_bytes(reg.a, x, false));
    Flow { jumped: false }
}

/// ADC A, `src`.
pub fn adc8<S: Readable8>(reg: &mut Registers, ram: &mut Ram, src: S) -> (flow: Flow)
    requires
        old(ram).wf(),
    ensures
        final(ram).wf(),
        state(*final(reg), final(ram)@) == state(*old(reg), old(ram)@).adc8(src.operand()),
        !flow.jumped,
{
    proof {
        reveal(Machine::adc8);
    }
    let x = src.read(reg, ram);
    accumulate(reg, add_bytes(reg.a, x, reg.carry));
    Flow { jumped: false }
}

/// SUB A, `src`.
pub fn sub8<S: Readable8>(reg: &mut Registers, ram: &mut Ram, src: S) -> (flow: Flow)
    requires
        old(ram).wf(),
    ensures
        final(ram).wf(),
        state(*final(reg), final(ram)@) == state(*old(reg), old(ram)@).sub8(src.operand()),
        !flow.jumped,
{
    proof {
        reveal(Machine::sub8);
    }
    let x = src.read(reg, ram);
    accumulate(reg, sub_bytes(reg.a, x, false));
    Flow { jumped: false }
}

/// SBC A, `src`.
pub fn sbc8<S: Readable8>(reg: &mut Registers, ram: &mut Ram, src: S) -> (flow: Flow)
    requires
        old(ram).wf(),
    ensures
        final(ram).wf(),
        state(*final(reg), final(ram)@) == state(*old(reg), old(ram)@).sbc8(src.operand()),
        !flow.jumped,
{
    proof {
        reveal(Machine::sbc8);
    }
    let x = src.read(reg, ram);
    accumulate(reg, sub_bytes(reg.a, x, reg.carry));
    Flow { jumped: false }
}

/// AND `src`.
pub fn and8<S: Readable8>(reg: &mut Registers, ram: &mut Ram, src: S) -> (flow: Flow)
    requires
        old(ram).wf(),
    ensures
        final(ram).wf(),
        state(*final(reg), final(ram)@) == state(*old(reg), old(ram)@).and8(src.operand()),
        !flow.jumped,
{
    proof {
        reveal(Machine::and8);
    }
    let value = reg.a & src.read(reg, ram);
    accumulate(
        reg,
        Alu { value, zero: value == 0, subtract: false, half_carry: true, carry: false },
    );
    Flow { jumped: false }
}

/// OR `src`.
pub fn or8<S: Readable8>(reg: &mut Registers, ram: &mut Ram, src: S) -> (flow: Flow)
    requires
        old(ram).wf(),
    ensures
        final(ram).wf(),
        state(*final(reg), final(ram)@) == state(*old(reg), old(ram)@).or8(src.operand()),
        !flow.jumped,
{
    proof {
        reveal(Machine::or8);
    }
    let value = reg.a | src.read(reg, ram);
    accumulate(
        reg,
        Alu { value, zero: value == 0, subtract: false, half_carry: false, carry: false },
    );
    Flow { jumped: false }
}

/// XOR `src`.
pub fn xor8<S: Readable8>(reg: &mut Registers, ram: &mut Ram, src: S) -> (flow: Flow)
    requires
        old(ram).wf(),
    ensures
        final(ram).wf(),
        state(*final(reg), final(ram)@) == state(*old(reg), old(ram)@).xor8(src.operand()),
        !flow.jumped,
{
    proof {
        reveal(Machine::xor8);
    }
    let value = reg.a ^ src.read(reg, ram);
    accumulate(
        reg,
        Alu { value, zero: value == 0, subtract: false, half_carry: false, carry: false },
    );
    Flow { jumped: false }
}

/// CP `src`.
pub fn cp8<S: Readable8>(reg: &mut Registers, ram: &mut Ram, src: S) -> (flow: Flow)
    requires
        old(ram).wf(),
    ensures
        final(ram).wf(),
        state(*final(reg), final(ram)@) == state(*old(reg), old(ram)@).cp8(src.operand()),
        !flow.jumped,
{
    proof {
        reveal(Machine::cp8);
    }
    let x = src.read(reg, ram);
    let alu = sub_bytes(reg.a, x, false);
    reg.set_flags(alu.zero, alu.subtract, alu.half_carry, alu.carry);
    Flow { jumped: false }
}

/// Adds two words.
pub fn add_words(a: u16, x: u16) -> (sum: Alu16)
    ensures
        sum == sum16(a, x),
{
    proof {
        lemma_low_bits(0, a);
        lemma_low_bits(0, x);
    }
    Alu16 {
        value: a.wrapping_add(x),
        half_carry: (a & 0x0FFF) + (x & 0x0FFF) > 0x0FFF,
        carry: a as u32 + x as u32 > 0xFFFF,
    }
}

/// ADD HL, `src`.
pub fn add16<S: Readable16>(reg: &mut Registers, ram: &mut Ram, src: S) -> (flow: Flow)
    requires
        old(ram).wf(),
    ensures
        final(ram).wf(),
        state(*final(reg), final(ram)@) == state(*old(reg), old(ram)@).add16(src.operand()),
        !flow.jumped,
{
    proof {
        reveal(Machine::add16);
    }
    let hl = reg.get16(Register16::HL);
    let x = src.read(reg, ram);
    let sum = add_words(hl, x);
    reg.set16(Register16::HL, sum.value);
    reg.subtract = false;
    reg.half_carry = sum.half_carry;
    reg.carry = sum.carry;
    Flow { jumped: false }
}

/// ADD SP, `src`.
pub fn add_sp<S: Readable8>(reg: &mut Registers, ram: &mut Ram, src: S) -> (flow: Flow)
    requires
        old(ram).wf(),
    ensures
        final(ram).wf(),
        state(*final(reg), final(ram)@) == state(*old(reg), old(ram)@).add_sp(src.operand()),
        !flow.jumped,
{
    proof {
        reveal(Machine::add_sp);
    }
    let sp = reg.sp;
    let e = src.read(reg, ram);
    proof {
        lemma_low_bits(e, sp);
    }
    reg.sp = displace(sp, e);
    reg.set_flags(
        false,
        false,
        (sp & 0x0F) + (e as u16 & 0x0F) > 0x0F,
        (sp & 0xFF) + e as u16 > 0xFF,
    );
    Flow { jumped: false }
}

/// JR `cc`, `src`.
pub fn jr<S: Readable8>(reg: &mut Registers, ram: &mut Ram, cc: Condition, src: S) -> (flow: Flow)
    requires
        old(ram).wf(),
    ensures
        final(ram).wf(),
        state(*final(reg), final(ram)@) == state(*old(reg), old(ram)@).jr(cc, src.operand()),
        flow.jumped == old(reg).spec_test(cc),
{
    proof {
        reveal(Machine::jr);
    }
    if reg.test(cc) {
        let e = src.read(reg, ram);
        reg.pc = displace(reg.pc.wrapping_add(2), e);
        Flow { jumped: true }
    } else {
        Flow { jumped: false }
    }
}

/// JP `cc`, `src`.
pub fn jp<S: Readable16>(reg: &mut Registers, ram: &mut Ram, cc: Condition, src: S) -> (flow: Flow)
    requires
        old(ram).wf(),
    ensures
        final(ram).wf(),
        state(*final(reg), final(ram)@) == state(*old(reg), old(ram)@).jp(cc, src.operand()),
        flow.jumped == old(reg).spec_test(cc),
{
    proof {
        reveal(Machine::jp);
    }
    if reg.test(cc) {
        reg.pc = src.read(reg, ram);
        Flow { jumped: true }
    } else {
        Flow { jumped: false }
    }
}

/// CALL `cc`, `src`.
pub fn call<S: Readable16>(reg: &mut Registers, ram: &mut Ram, cc: Condition, src: S) -> (flow:
    Flow)
    requires
        old(ram).wf(),
    ensures
        final(ram).wf(),
        state(*final(reg), final(ram)@) == state(*old(reg), old(ram)@).call(cc, src.operand()),
        flow.jumped == old(reg).spec_test(cc),
{
    proof {
        reveal(Machine::call);
    }
    if reg.test(cc) {
        let target = src.read(reg, ram);
        let after = reg.pc.wrapping_add(3);
        push_word(reg, ram, after);
        reg.pc = target;
        Flow { jumped: true }
    } else {
        Flow { jumped: false }
    }
}

/// RET `cc`.
pub fn ret(reg: &mut Registers, ram: &mut Ram, cc: Condition) -> (flow: Flow)
    requires
        old(ram).wf(),
    ensures
        final(ram).wf(),
        state(*final(reg), final(ram)@) == state(*old(reg), old(ram)@).ret(cc),
        flow.jumped == old(reg).spec_test(cc),
{
    proof {
        reveal(Machine::ret);
    }
    if reg.test(cc) {
        reg.pc = pop_word(reg, ram);
        Flow { jumped: true }
    } else {
        Flow { jumped: false }
    }
}

/// RST `vector`.
pub fn rst(reg: &mut Registers, ram: &mut Ram, vector: u8) -> (flow: Flow)
    requires
        old(ram).wf(),
    ensures
        final(ram).wf(),
        state(*final(reg), final(ram)@) == state(*old(reg), old(ram)@).rst(vector),
        flow.jumped,
{
    proof {
        reveal(Machine::rst);
    }
    let after = reg.pc.wrapping_add(1);
    push_word(reg, ram, after);
    reg.pc = vector as u16;
    Flow { jumped: true }
}

/// PUSH `src`.
pub fn push16<S: Readable16>(reg: &mut Registers, ram: &mut Ram, src: S) -> (flow: Flow)
    requires
        old(ram).wf(),
    ensures
        final(ram).wf(),
        state(*final(reg), final(ram)@) == state(*old(reg), old(ram)@).push16(src.operand()),
        !flow.jumped,
{
    proof {
        reveal(Machine::push16);
    }
    let v = src.read(reg, ram);
    push_word(reg, ram, v);
    Flow { jumped: false }
}

/// POP `dst`.
pub fn pop16<D: Writable16>(reg: &mut Registers, ram: &mut Ram, dst: D) -> (flow: Flow)
    requires
        old(ram).wf(),
    ensures
        final(ram).wf(),
        state(*final(reg), final(ram)@) == state(*old(reg), old(ram)@).pop16(dst.operand()),
        !flow.jumped,
{
    proof {
        reveal(Machine::pop16);
    }
    let v = pop_word(reg, ram);
    dst.write(reg, ram, v);
    Flow { jumped: false }
}

/// The kernel of an opcode that is illegal or has no kernel yet: nothing
/// changes.
pub fn undefined(reg: &mut Registers, ram: &mut Ram, opcode: u8) -> (flow: Flow)
    requires
        old(ram).wf(),
    ensures
        final(ram).wf(),
        state(*final(reg), final(ram)@) == state(*old(reg), old(ram)@),
        !flow.jumped,
{
    Flow { jumped: false }
}

} // verus!
