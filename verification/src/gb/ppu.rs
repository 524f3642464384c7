//! The picture processing unit as far as the processor sees it: its
//! registers on the bus and the LCD status byte.

use vstd::prelude::*;

pub mod register;

verus! {

/// The four modes that the picture processing unit goes through, as
/// numbered in bits 1 and 0 of the LCD status register.
#[derive(Clone, Copy, Debug, PartialEq, Eq, Structural)]
pub enum Mode {
    /// Mode 0: horizontal blank.
    HBlank,
    /// Mode 1: vertical blank.
    VBlank,
    /// Mode 2: the unit reads the object attribute memory.
    OAMRead,
    /// Mode 3: the unit reads video RAM.
    VRAMRead,
}

} // verus!
