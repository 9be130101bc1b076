//! The sound unit. Sound is not emulated: the unit takes its place on the
//! clock and stays silent.

use vstd::prelude::*;

verus! {

/// The sound unit.
#[derive(Debug, Clone, Copy, PartialEq, Eq, Structural)]
pub struct SPU {
}

impl SPU {
    /// A silent sound unit.
    pub fn new() -> (spu: SPU)
        ensures
            spu == (SPU {  }),
    {
        SPU {  }
    }

    /// Lets `ticks` base-clock cycles go by. The unit raises no interrupt.
    pub fn step(&mut self, ticks: u32, intf: &mut u8)
        ensures
            *final(self) == *old(self),
            *final(intf) == *old(intf),
    {
    }

    /// Reads a register of the unit, which are all zero.
    pub fn read_byte(&self, addr: u16) -> (r: u8)
        ensures
            r == 0,
    {
        0
    }

    /// Writes a register of the unit, which has no effect.
    pub fn write_byte(&mut self, addr: u16, val: u8)
        ensures
            *final(self) == *old(self),
    {
    }
}

} // verus!
