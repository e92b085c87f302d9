//! The memory bus the core executes against: a flat, byte-addressable
//! 64KB address space with little-endian word access. Word access at
//! 0xFFFF wraps around to 0x0000 for its second byte.

use vstd::prelude::*;

verus! {

/// Number of addressable bytes.
pub const MEM_SIZE: usize = 0x10000;

/// A byte address one past `a`, wrapping at the end of the address space.
pub open spec fn addr_succ(a: u16) -> u16 {
    ((a + 1) % 0x10000) as u16
}

/// The little-endian word at address `a`: low byte at `a`, high byte at the
/// following (wrapping) address.
pub open spec fn word_at(m: Seq<u8>, a: u16) -> u16 {
    (m[a as int] + 256 * m[addr_succ(a) as int]) as u16
}

/// The memory after a little-endian word store at address `a`.
pub open spec fn word_store(m: Seq<u8>, a: u16, v: u16) -> Seq<u8> {
    m.update(a as int, (v % 256) as u8).update(addr_succ(a) as int, (v / 256) as u8)
}

/// A flat 64KB memory.
pub struct Memory {
    bytes: Vec<u8>,
}

impl View for Memory {
    type V = Seq<u8>;

    closed spec fn view(&self) -> Seq<u8> {
        self.bytes@
    }
}

impl Memory {
    /// The memory is well formed when it covers the whole address space.
    pub open spec fn wf(&self) -> bool {
        self@.len() == MEM_SIZE
    }

    /// A fresh, zero-filled memory.
    pub fn new() -> (r: Memory)
        ensures
            r.wf(),
            forall|i: int| 0 <= i < MEM_SIZE ==> r@[i] == 0,
    {
        let mut bytes: Vec<u8> = Vec::new();
        let mut i: usize = 0;
        while i < MEM_SIZE
            invariant
                i <= MEM_SIZE,
                bytes@.len() == i,
                forall|j: int| 0 <= j < i ==> bytes@[j] == 0,
            decreases MEM_SIZE - i,
        {
            bytes.push(0);
            i = i + 1;
        }
        Memory { bytes }
    }

    /// Reads the byte at `addr`.
    pub fn read_byte(&self, addr: u16) -> (r: u8)
        requires
            self.wf(),
        ensures
            r == self@[addr as int],
    {
        self.bytes[addr as usize]
    }

    /// Writes the byte at `addr`.
    pub fn write_byte(&mut self, addr: u16, value: u8)
        requires
            old(self).wf(),
        ensures
            final(self).wf(),
            final(self)@ == old(self)@.update(addr as int, value),
    {
        self.bytes[addr as usize] = value;
    }

    /// Reads the little-endian word at `addr`.
    pub fn read_word(&self, addr: u16) -> (r: u16)
        requires
            self.wf(),
        ensures
            r == word_at(self@, addr),
    {
        let lo = self.read_byte(addr);
        let hi = self.read_byte(addr.wrapping_add(1));
        (lo as u16) + 256 * (hi as u16)
    }

    /// Writes the little-endian word at `addr`.
    pub fn write_word(&mut self, addr: u16, value: u16)
        requires
            old(self).wf(),
        ensures
            final(self).wf(),
            final(self)@ == word_store(old(self)@, addr, value),
    {
        self.write_byte(addr, (value % 256) as u8);
        self.write_byte(addr.wrapping_add(1), (value / 256) as u8);
    }

    /// A word read after a word store at the same address hands the stored
    /// value back, whatever the address and the rest of memory.
    pub proof fn lemma_word_roundtrip(m: Seq<u8>, a: u16, v: u16)
        requires
            m.len() == MEM_SIZE,
        ensures
            word_at(word_store(m, a, v), a) == v,
            word_store(m, a, v).len() == MEM_SIZE,
    {
        assert(addr_succ(a) != a);
    }
}

} // verus!
