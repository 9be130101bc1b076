use rustboy::keypad::{Keypad, Selected};
use rustboy::Button;

#[test]
fn new_keypad_has_no_key_down() {
    let k = Keypad::new();
    assert_eq!(k.buttons, 0x0F);
    assert_eq!(k.directions, 0x0F);
    assert_eq!(k.col, Selected::Direction);
    assert_eq!(k.read_byte(0xFF00), 0x0F);
}

#[test]
fn key_down_clears_its_bit_and_raises_the_interrupt() {
    let cases = [
        (Button::Right, true, 0x0Eu8),
        (Button::Left, true, 0x0D),
        (Button::Up, true, 0x0B),
        (Button::Down, true, 0x07),
        (Button::A, false, 0x0E),
        (Button::B, false, 0x0D),
        (Button::Select, false, 0x0B),
        (Button::Start, false, 0x07),
    ];
    for (key, direction, expected) in cases {
        let mut k = Keypad::new();
        let mut intf = 0u8;
        k.key_down(key, &mut intf);
        assert_eq!(intf, 0x10);
        if direction {
            assert_eq!(k.directions, expected);
            assert_eq!(k.buttons, 0x0F);
        } else {
            assert_eq!(k.buttons, expected);
            assert_eq!(k.directions, 0x0F);
        }
    }
}

#[test]
fn key_up_sets_its_bit_again() {
    let mut k = Keypad::new();
    let mut intf = 0u8;
    k.key_down(Button::Left, &mut intf);
    k.key_down(Button::Down, &mut intf);
    assert_eq!(k.directions, 0x05);
    k.key_up(Button::Left);
    assert_eq!(k.directions, 0x07);
    k.key_up(Button::Down);
    assert_eq!(k.directions, 0x0F);
}

#[test]
fn key_up_keeps_the_groups_in_four_bits() {
    let mut k = Keypad::new();
    k.key_up(Button::A);
    k.key_up(Button::Up);
    assert_eq!(k.buttons, 0x0F);
    assert_eq!(k.directions, 0x0F);
}

#[test]
fn write_selects_the_group_to_read() {
    let mut k = Keypad::new();
    let mut intf = 0u8;
    k.key_down(Button::A, &mut intf);
    k.key_down(Button::Up, &mut intf);
    k.write_byte(0xFF00, 0x10);
    assert_eq!(k.col, Selected::Button);
    assert_eq!(k.read_byte(0xFF00), 0x0E);
    k.write_byte(0xFF00, 0x20);
    assert_eq!(k.col, Selected::Direction);
    assert_eq!(k.read_byte(0xFF00), 0x0B);
    k.write_byte(0xFF00, 0x30);
    assert_eq!(k.col, Selected::MltReq);
    assert_eq!(k.read_byte(0xFF00), 0x0F);
}

#[test]
fn write_with_both_select_bits_clear_keeps_the_group() {
    let mut k = Keypad::new();
    k.write_byte(0xFF00, 0x10);
    k.write_byte(0xFF00, 0x00);
    assert_eq!(k.col, Selected::Button);
    k.write_byte(0xFF00, 0xCF);
    assert_eq!(k.col, Selected::Button);
}

#[test]
fn key_down_keeps_pending_interrupts() {
    let mut k = Keypad::new();
    let mut intf = 0x05u8;
    k.key_down(Button::Start, &mut intf);
    assert_eq!(intf, 0x15);
}
