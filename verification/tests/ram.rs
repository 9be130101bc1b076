use rustboy::mem::ram::{FILL, RAM};

#[test]
fn new_ram_holds_the_fill_byte() {
    let ram = RAM::new(16);
    assert_eq!(ram.len(), 16);
    for addr in 0..16 {
        assert_eq!(ram.read_byte(addr), FILL);
    }
    assert_eq!(FILL, 0xCA);
}

#[test]
fn write_changes_one_byte() {
    let mut ram = RAM::new(8);
    ram.write_byte(3, 0x5A);
    assert_eq!(ram.read_byte(3), 0x5A);
    assert_eq!(ram.read_byte(2), 0xCA);
    assert_eq!(ram.read_byte(4), 0xCA);
}

#[test]
fn empty_ram_has_no_byte() {
    let ram = RAM::new(0);
    assert_eq!(ram.len(), 0);
}
