//! The LR35902 processor: register file, operands, instruction kernels and
//! opcode tables, and the step that runs one instruction.

use vstd::prelude::*;
use crate::gb::bus::Bus;
use crate::gb::cpu::instruction::{exec, exec_prefix_cb, exec_prefix_cb_spec, exec_spec};
use crate::gb::cpu::machine::{state, Machine};
use crate::gb::cpu::processor::offset16;
use crate::gb::cpu::register::Registers;
use crate::gb::ram::Ram;

pub mod instruction;
pub mod machine;
pub mod operand;
pub mod processor;
pub mod register;

verus! {

/// The opcode that sends the next byte to the prefixed table.
pub const PREFIX_CB: u8 = 0xCB;

/// The state after one step and the cycles that the step took.
pub struct Step {
    pub machine: Machine,
    pub cycles: u8,
}

/// One step of the processor in state `m`: the byte at PC is the opcode,
/// or, where that byte is the prefix, the byte after it is an opcode of
/// the prefixed table. The instruction runs, and PC goes on by the advance
/// that the table reports, modulo 2^16.
pub open spec fn step_spec(m: Machine) -> Step {
    let opcode = Ram::spec_read8(m.mem, m.reg.pc);
    let outcome = if opcode == PREFIX_CB {
        exec_prefix_cb_spec(Ram::spec_read8(m.mem, m.reg.pc.wrapping_add(1)), m)
    } else {
        exec_spec(opcode, m)
    };
    Step {
        machine: outcome.machine.with_pc(
            offset16(outcome.machine.reg.pc, outcome.pc_delta as int),
        ),
        cycles: outcome.cycles,
    }
}

/// Fetches the instruction at PC, runs it, and advances PC. Returns the
/// cycles taken, by which the caller paces the rest of the machine.
pub fn step(reg: &mut Registers, ram: &mut Ram) -> (cycles: u8)
    requires
        old(ram).wf(),
    ensures
        final(ram).wf(),
        step_spec(state(*old(reg), old(ram)@)).machine.reg == *final(reg),
        step_spec(state(*old(reg), old(ram)@)).machine.mem == final(ram)@,
        step_spec(state(*old(reg), old(ram)@)).cycles == cycles,
{
    let opcode = ram.read8(reg.pc);
    let (pc_delta, cycles) = if opcode == PREFIX_CB {
        let prefixed = ram.read8(reg.pc.wrapping_add(1));
        exec_prefix_cb(prefixed, reg, ram)
    } else {
        exec(opcode, reg, ram)
    };
    reg.pc = reg.pc.wrapping_add(pc_delta as u16);
    cycles
}

} // verus!
