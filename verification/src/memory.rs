//! The flat 64 KiB address space.

use vstd::prelude::*;

verus! {

/// 65536 bytes, one for every 16-bit address.
#[derive(Clone, Debug, PartialEq, Eq)]
pub struct Memory {
    data: [u8; 65536],
}

impl View for Memory {
    type V = Seq<u8>;

    /// The bytes in address order; the length is always 65536.
    closed spec fn view(&self) -> Seq<u8> {
        self.data@
    }
}

impl Memory {
    /// Every memory holds exactly one byte per address.
    pub broadcast proof fn lemma_len(&self)
        ensures
            #[trigger] self@.len() == 65536,
    {
    }

    /// A memory with every byte zero.
    pub fn new() -> (memory: Memory)
        ensures
            memory@ == Seq::new(65536, |i: int| 0u8),
    {
        let memory = Memory { data: [0; 65536] };
        assert(memory@ =~= Seq::new(65536, |i: int| 0u8));
        memory
    }

    /// The byte at `addr`.
    pub fn read_byte(&self, addr: u16) -> (value: u8)
        ensures
            value == self@[addr as int],
    {
        self.data[addr as usize]
    }

    /// Puts `value` at `addr` and leaves every other byte as it is.
    pub fn write_byte(&mut self, addr: u16, value: u8)
        ensures
            final(self)@ == old(self)@.update(addr as int, value),
    {
        self.data[addr as usize] = value;
    }
}

} // verus!
