//! A block of bytes addressed from zero.

use vstd::prelude::*;

verus! {

/// Byte that fresh memory holds: its content is undetermined on the
/// hardware, so it gets a value that stands out.
pub const FILL: u8 = 0xCA;

/// A fixed number of bytes.
pub struct RAM {
    data: Vec<u8>,
}

impl View for RAM {
    type V = Seq<u8>;

    closed spec fn view(&self) -> Seq<u8> {
        self.data@
    }
}

impl RAM {
    /// `size` bytes, each holding `FILL`.
    pub fn new(size: usize) -> (ram: RAM)
        ensures
            ram@ == Seq::new(size as nat, |i: int| FILL),
    {
        let data = vec![FILL; size];
        assert(data@ =~= Seq::new(size as nat, |i: int| FILL));
        RAM { data }
    }

    /// Number of bytes.
    pub fn len(&self) -> (n: usize)
        ensures
            n == self@.len(),
    {
        self.data.len()
    }

    /// The byte at `addr`.
    pub fn read_byte(&self, addr: u16) -> (r: u8)
        requires
            addr < self@.len(),
        ensures
            r == self@[addr as int],
    {
        self.data[addr as usize]
    }

    /// Stores `val` at `addr`.
    pub fn write_byte(&mut self, addr: u16, val: u8)
        requires
            addr < old(self)@.len(),
        ensures
            final(self)@ == old(self)@.update(addr as int, val),
    {
        self.data[addr as usize] = val;
    }
}

} // verus!
