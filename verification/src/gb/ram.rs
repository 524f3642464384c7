//! The flat 64 KiB byte array behind work RAM, video RAM, OAM, the I/O
//! registers and high RAM.

use vstd::prelude::*;
use crate::gb::bus::{high_byte, low_byte, make_word, split_word, word, Bus};

verus! {

/// The number of cells: one for each 16-bit address.
pub const RAM_SIZE: usize = 0x1_0000;

/// `len` zero bytes.
pub open spec fn zeros(len: nat) -> Seq<u8> {
    Seq::new(len, |i: int| 0u8)
}

/// `bytes` cut or filled up with zeros to `len` bytes.
pub open spec fn fitted(bytes: Seq<u8>, len: nat) -> Seq<u8> {
    Seq::new(
        len,
        |i: int|
            if i < bytes.len() {
                bytes[i]
            } else {
                0u8
            },
    )
}

/// Cuts `bytes` or fills it up with zeros to `len` bytes.
pub fn fit(bytes: Vec<u8>, len: usize) -> (out: Vec<u8>)
    ensures
        out@ == fitted(bytes@, len as nat),
{
    let mut out = bytes;
    out.truncate(len);
    out.resize(len, 0);
    assert(out@ =~= fitted(bytes@, len as nat));
    out
}

/// A byte for every 16-bit address.
pub struct Ram {
    data: Vec<u8>,
}

impl View for Ram {
    type V = Seq<u8>;

    closed spec fn view(&self) -> Seq<u8> {
        self.data@
    }
}

impl Ram {
    /// A RAM holding `data`, the byte of address 0 first. Where `data` has
    /// fewer bytes than there are addresses, the rest is zero; bytes beyond
    /// the last address are dropped.
    pub fn new(data: Vec<u8>) -> (ram: Ram)
        ensures
            ram.wf(),
            ram@ == fitted(data@, RAM_SIZE as nat),
    {
        Ram { data: fit(data, RAM_SIZE) }
    }

    /// A copy of the whole array, the byte of address 0 first.
    pub fn dump(&self) -> (bytes: Vec<u8>)
        ensures
            bytes@ == self@,
    {
        self.data.clone()
    }

    /// The word at `addr`: low byte at `addr`, high byte at the next
    /// address, which for `0xFFFF` is `0x0000`.
    pub open spec fn spec_read16(mem: Seq<u8>, addr: u16) -> u16 {
        word(mem[addr as int], mem[addr.wrapping_add(1) as int])
    }

    /// The memory after word `data` was written at `addr`, low byte first.
    pub open spec fn spec_write16(mem: Seq<u8>, addr: u16, data: u16) -> Seq<u8> {
        mem.update(addr as int, low_byte(data)).update(
            addr.wrapping_add(1) as int,
            high_byte(data),
        )
    }
}

impl Bus for Ram {
    open spec fn wf(&self) -> bool {
        self@.len() == RAM_SIZE
    }

    open spec fn spec_read8(state: Seq<u8>, addr: u16) -> u8 {
        state[addr as int]
    }

    open spec fn spec_write8(state: Seq<u8>, addr: u16, data: u8) -> Seq<u8> {
        state.update(addr as int, data)
    }

    fn read8(&self, addr: u16) -> (data: u8) {
        self.data[addr as usize]
    }

    fn read16(&self, addr: u16) -> (data: u16)
        ensures
            data == Ram::spec_read16(self@, addr),
    {
        let lo = self.read8(addr);
        let hi = self.read8(addr.wrapping_add(1));
        make_word(lo, hi)
    }

    fn write8(&mut self, addr: u16, data: u8) {
        self.data.set(addr as usize, data);
    }

    fn write16(&mut self, addr: u16, data: u16)
        ensures
            final(self)@ == Ram::spec_write16(old(self)@, addr, data),
    {
        let (lo, hi) = split_word(data);
        self.write8(addr, lo);
        self.write8(addr.wrapping_add(1), hi);
    }
}

/// A word written to RAM is the word read back from the same address,
/// whatever the address: the two bytes never share a cell.
pub proof fn lemma_ram_word_round_trip(mem: Seq<u8>, addr: u16, data: u16)
    requires
        mem.len() == RAM_SIZE,
    ensures
        Ram::spec_read16(Ram::spec_write16(mem, addr, data), addr) == data,
{
}

} // verus!
