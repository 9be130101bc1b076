//! The address map: which range of the 64 KiB address space belongs to whom.

use vstd::prelude::*;

verus! {

/// Cartridge ROM: bank 0 in the lower half, the selected bank in the upper.
pub const ROM_BANK: (u16, u16) = (0x0000, 0x7FFF);

/// Video memory.
pub const VRAM: (u16, u16) = (0x8000, 0x9FFF);

/// Cartridge RAM.
pub const EXT_RAM: (u16, u16) = (0xA000, 0xBFFF);

/// Work RAM: bank 0, then the selected bank.
pub const WRAM: (u16, u16) = (0xC000, 0xDFFF);

/// Mirror of the work RAM without its last 512 bytes.
pub const WRAM_ECHO: (u16, u16) = (0xE000, 0xFDFF);

/// Sprite table.
pub const OAM: (u16, u16) = (0xFE00, 0xFE9F);

/// Nothing is mapped here.
pub const UNUSED: (u16, u16) = (0xFEA0, 0xFEFF);

/// Registers.
pub const IO: (u16, u16) = (0xFF00, 0xFF7F);

/// High RAM.
pub const HRAM: (u16, u16) = (0xFF80, 0xFFFE);

/// Interrupt enable mask.
pub const IE: u16 = 0xFFFF;

/// The offset of `addr` in a range of addresses, given by its first and
/// its last address, if `addr` lies in the range.
pub open spec fn offset_in(addr: u16, range: (u16, u16)) -> Option<u16> {
    if range.0 <= addr <= range.1 {
        Some((addr - range.0) as u16)
    } else {
        None
    }
}

/// The offset of `addr` in a range, if it lies in the range.
pub fn in_range(addr: u16, range: (u16, u16)) -> (r: Option<u16>)
    ensures
        r == offset_in(addr, range),
{
    let (a, b) = range;
    if addr >= a && addr <= b {
        Some(addr - a)
    } else {
        None
    }
}

/// The number of addresses in a range that does not span the whole
/// address space.
pub fn range_size(range: (u16, u16)) -> (n: u16)
    requires
        range.0 <= range.1,
        range.1 - range.0 < 0xFFFF,
    ensures
        n == range.1 - range.0 + 1,
{
    let (a, b) = range;
    b - a + 1
}

} // verus!
