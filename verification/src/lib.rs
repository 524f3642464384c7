//! The core of a Game Boy (DMG) emulator: the LR35902 register file and
//! instruction interpreter, the memory bus with its cartridge port, and the
//! LCD status registers.
//!
//! Every executable function carries a contract over a mathematical model of
//! the machine: memory is a sequence of 65 536 bytes, the register file is a
//! record of bytes, words and flags, and one instruction is a function from
//! machine state to machine state.

pub mod gb;
