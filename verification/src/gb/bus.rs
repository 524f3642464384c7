//! The 16-bit address bus: byte and word access to a device.

use vstd::prelude::*;

verus! {

/// The word with low byte `lo` and high byte `hi`.
pub open spec fn word(lo: u8, hi: u8) -> u16 {
    (hi as int * 256 + lo as int) as u16
}

/// Bits 0 to 7 of `w`.
pub open spec fn low_byte(w: u16) -> u8 {
    (w % 256) as u8
}

/// Bits 8 to 15 of `w`.
pub open spec fn high_byte(w: u16) -> u8 {
    (w / 256) as u8
}

/// The arithmetic reading of a word agrees with the shifts and masks that
/// compute it.
pub proof fn lemma_word_bits(lo: u8, hi: u8, w: u16)
    ensures
        (lo as u16) | ((hi as u16) << 8) == word(lo, hi),
        (w & 0xFF) as u8 == low_byte(w),
        (w >> 8) as u8 == high_byte(w),
{
    assert((lo as u16) | ((hi as u16) << 8) == (hi as u16) * 256 + (lo as u16)) by (bit_vector);
    assert((w & 0xFF) as u8 == (w % 256) as u8) by (bit_vector);
    assert((w >> 8) as u8 == (w / 256) as u8) by (bit_vector);
}

/// Puts two bytes together into a word.
pub fn make_word(lo: u8, hi: u8) -> (w: u16)
    ensures
        w == word(lo, hi),
{
    proof {
        lemma_word_bits(lo, hi, 0);
    }
    (lo as u16) | ((hi as u16) << 8)
}

/// Takes a word apart into its low and its high byte.
pub fn split_word(w: u16) -> (bytes: (u8, u8))
    ensures
        bytes.0 == low_byte(w),
        bytes.1 == high_byte(w),
{
    proof {
        lemma_word_bits(0, 0, w);
    }
    ((w & 0xFF) as u8, (w >> 8) as u8)
}

/// A device on the address bus.
///
/// The state of a device is its view. `spec_read8` says which byte a read
/// returns in a state, `spec_write8` which state a write leads to.
/// Words are little-endian: the low byte lies at `addr`, the high byte at
/// the next address, and the address after `0xFFFF` is `0x0000`.
pub trait Bus: View + Sized {
    /// Whether the device is in a state its operations accept.
    spec fn wf(&self) -> bool;

    /// The byte read at `addr` in `state`.
    spec fn spec_read8(state: Self::V, addr: u16) -> u8;

    /// The state after `data` was written at `addr` in `state`.
    spec fn spec_write8(state: Self::V, addr: u16, data: u8) -> Self::V;

    /// Reads the byte at `addr`.
    fn read8(&self, addr: u16) -> (data: u8)
        requires
            self.wf(),
        ensures
            data == Self::spec_read8(self@, addr),
    ;

    /// Reads the word at `addr`.
    fn read16(&self, addr: u16) -> (data: u16)
        requires
            self.wf(),
        ensures
            data == word(
                Self::spec_read8(self@, addr),
                Self::spec_read8(self@, addr.wrapping_add(1)),
            ),
    ;

    /// Writes the byte `data` at `addr`.
    fn write8(&mut self, addr: u16, data: u8)
        requires
            old(self).wf(),
        ensures
            final(self).wf(),
            final(self)@ == Self::spec_write8(old(self)@, addr, data),
    ;

    /// Writes the word `data` at `addr`.
    fn write16(&mut self, addr: u16, data: u16)
        requires
            old(self).wf(),
        ensures
            final(self).wf(),
            final(self)@ == Self::spec_write8(
                Self::spec_write8(old(self)@, addr, low_byte(data)),
                addr.wrapping_add(1),
                high_byte(data),
            ),
    ;
}

} // verus!
