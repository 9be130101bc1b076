//! The joypad: eight buttons read through one register in two groups of four.

use vstd::prelude::*;
use crate::bits::{bit_of, with_bit, without_bit, set_bit, clear_bit, lemma_nibble_bits,
    lemma_with_bit, lemma_without_bit};
use crate::cpu::Interrupts;
use crate::Button;

verus! {

/// The group of keys that a read of the joypad register returns.
#[derive(Debug, Clone, Copy, PartialEq, Eq, Structural)]
pub enum Selected {
    Button,
    Direction,
    MltReq,
}

/// The state of the eight buttons and the group selected for reading.
///
/// Each group holds one bit per key, cleared while the key is held down.
#[derive(Debug, Clone, Copy, PartialEq, Eq, Structural)]
pub struct Keypad {
    /// A, B, Select, Start in bits 0 to 3.
    pub buttons: u8,
    /// Right, Left, Up, Down in bits 0 to 3.
    pub directions: u8,
    pub col: Selected,
}

/// Whether a key belongs to the direction group.
pub open spec fn is_direction(key: Button) -> bool {
    match key {
        Button::Left | Button::Right | Button::Up | Button::Down => true,
        _ => false,
    }
}

/// The bit that stands for a key within its group.
pub open spec fn key_bit(key: Button) -> u8 {
    match key {
        Button::Right | Button::A => 0,
        Button::Left | Button::B => 1,
        Button::Up | Button::Select => 2,
        Button::Down | Button::Start => 3,
    }
}

impl Keypad {
    /// Both groups fit in four bits.
    pub open spec fn wf(self) -> bool {
        self.buttons < 16 && self.directions < 16
    }

    /// Whether a key is held down.
    pub open spec fn pressed(self, key: Button) -> bool {
        if is_direction(key) {
            !bit_of(self.directions, key_bit(key))
        } else {
            !bit_of(self.buttons, key_bit(key))
        }
    }

    /// The value the bus reads from the joypad register.
    pub open spec fn spec_read_byte(self) -> u8 {
        match self.col {
            Selected::Button => self.buttons,
            Selected::Direction => self.directions,
            Selected::MltReq => 0x0F,
        }
    }

    /// The keypad after the bus writes `val` to the joypad register: bits 4
    /// and 5 of `val` choose the group, and the choice stays when both are clear.
    pub open spec fn spec_write_byte(self, val: u8) -> Keypad {
        let sel = (val / 16) % 4;
        if sel == 1 {
            Keypad { col: Selected::Button, ..self }
        } else if sel == 2 {
            Keypad { col: Selected::Direction, ..self }
        } else if sel == 3 {
            Keypad { col: Selected::MltReq, ..self }
        } else {
            self
        }
    }

    /// The keypad after a key goes down.
    pub open spec fn spec_key_down(self, key: Button) -> Keypad {
        if is_direction(key) {
            Keypad { directions: without_bit(self.directions, key_bit(key)), ..self }
        } else {
            Keypad { buttons: without_bit(self.buttons, key_bit(key)), ..self }
        }
    }

    /// The keypad after a key comes up.
    pub open spec fn spec_key_up(self, key: Button) -> Keypad {
        if is_direction(key) {
            Keypad { directions: with_bit(self.directions, key_bit(key)), ..self }
        } else {
            Keypad { buttons: with_bit(self.buttons, key_bit(key)), ..self }
        }
    }

    /// A keypad with no key held down and the direction group selected.
    pub open spec fn initial() -> Keypad {
        Keypad { buttons: 0x0F, directions: 0x0F, col: Selected::Direction }
    }

    /// A keypad with no key held down.
    pub fn new() -> (k: Keypad)
        ensures
            k.wf(),
            k == Keypad::initial(),
    {
        Keypad { buttons: 0x0F, directions: 0x0F, col: Selected::Direction }
    }

    /// Reads the joypad register: the selected group, a key held down reading 0.
    pub fn read_byte(&self, _addr: u16) -> (r: u8)
        ensures
            r == self.spec_read_byte(),
    {
        match self.col {
            Selected::Button => self.buttons,
            Selected::Direction => self.directions,
            Selected::MltReq => 0x0F,
        }
    }

    /// Writes the joypad register, which selects the group to read.
    pub fn write_byte(&mut self, _addr: u16, val: u8)
        ensures
            *final(self) == old(self).spec_write_byte(val),
    {
        let sel: u8 = (val / 16) % 4;
        if sel == 1 {
            self.col = Selected::Button;
        } else if sel == 2 {
            self.col = Selected::Direction;
        } else if sel == 3 {
            self.col = Selected::MltReq;
        }
    }

    /// The group a key belongs to and its bit there.
    fn locate(key: Button) -> (r: (bool, u8))
        ensures
            r.0 == is_direction(key),
            r.1 == key_bit(key),
            r.1 < 4,
    {
        match key {
            Button::Left => (true, 1),
            Button::Right => (true, 0),
            Button::Up => (true, 2),
            Button::Down => (true, 3),
            Button::A => (false, 0),
            Button::B => (false, 1),
            Button::Start => (false, 3),
            Button::Select => (false, 2),
        }
    }

    /// Records that a key went down and raises the joypad interrupt.
    pub fn key_down(&mut self, key: Button, intf: &mut u8)
        requires
            old(self).wf(),
        ensures
            final(self).wf(),
            *final(self) == old(self).spec_key_down(key),
            *final(intf) == *old(intf) | Interrupts::Joypad.spec_mask(),
    {
        *intf = *intf | Interrupts::Joypad.mask();
        let (dir, bit) = Keypad::locate(key);
        proof {
            lemma_nibble_bits(self.directions, bit);
            lemma_nibble_bits(self.buttons, bit);
        }
        if dir {
            self.directions = clear_bit(self.directions, bit);
        } else {
            self.buttons = clear_bit(self.buttons, bit);
        }
    }

    /// Records that a key came up.
    pub fn key_up(&mut self, key: Button)
        requires
            old(self).wf(),
        ensures
            final(self).wf(),
            *final(self) == old(self).spec_key_up(key),
    {
        let (dir, bit) = Keypad::locate(key);
        proof {
            lemma_nibble_bits(self.directions, bit);
            lemma_nibble_bits(self.buttons, bit);
        }
        if dir {
            self.directions = set_bit(self.directions, bit);
        } else {
            self.buttons = set_bit(self.buttons, bit);
        }
    }
}

/// A key is held after it goes down and free after it comes up, and neither
/// event changes the state of another key.
pub proof fn law_key_events(k: Keypad, key: Button, other: Button)
    ensures
        k.spec_key_down(key).pressed(key),
        !k.spec_key_up(key).pressed(key),
        other != key ==> k.spec_key_down(key).pressed(other) == k.pressed(other),
        other != key ==> k.spec_key_up(key).pressed(other) == k.pressed(other),
{
    lemma_without_bit(k.directions, key_bit(key), key_bit(other));
    lemma_without_bit(k.buttons, key_bit(key), key_bit(other));
    lemma_with_bit(k.directions, key_bit(key), key_bit(other));
    lemma_with_bit(k.buttons, key_bit(key), key_bit(other));
    lemma_without_bit(k.directions, key_bit(key), key_bit(key));
    lemma_without_bit(k.buttons, key_bit(key), key_bit(key));
    lemma_with_bit(k.directions, key_bit(key), key_bit(key));
    lemma_with_bit(k.buttons, key_bit(key), key_bit(key));
}

} // verus!
