//! Cycle-stepped emulation core for the Game Boy family of handhelds.
//!
//! The processor, the memory bus with its cartridge bank controller, the
//! programmable timer and the pixel unit advance in lock-step on one clock.
//! Every component has a mathematical model (a view or a set of `spec`
//! functions) and every executable function is proved to follow it.

use vstd::prelude::*;

pub mod bits;
pub mod cpu;
pub mod gb;
pub mod gpu;
pub mod keypad;
pub mod mem;
pub mod spu;
pub mod timer;

verus! {

/// Width of the screen in pixels.
pub const DISPLAY_WIDTH: usize = 160;

/// Height of the screen in pixels.
pub const DISPLAY_HEIGHT: usize = 144;

/// The machine that is emulated.
#[derive(Debug, Clone, Copy, PartialEq, Eq, Structural)]
pub enum Target {
    GameBoy,
    GameBoyColor,
    SuperGameBoy,
}

/// The eight buttons of the console.
#[derive(Debug, Clone, Copy, PartialEq, Eq, Structural)]
pub enum Button {
    Left,
    Right,
    Up,
    Down,
    A,
    B,
    Start,
    Select,
}

} // verus!
