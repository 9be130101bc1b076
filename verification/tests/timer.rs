use rustboy::mem::Speed;
use rustboy::timer::Timer;

#[test]
fn new_timer_reads_zero_registers() {
    let t = Timer::new();
    assert_eq!(t.read_byte(0xFF04), 0);
    assert_eq!(t.read_byte(0xFF05), 0);
    assert_eq!(t.read_byte(0xFF06), 0);
    assert_eq!(t.read_byte(0xFF07), 0);
}

#[test]
fn other_addresses_read_open_bus() {
    let t = Timer::new();
    assert_eq!(t.read_byte(0xFF03), 0xFF);
    assert_eq!(t.read_byte(0xFF08), 0xFF);
}

#[test]
fn counter_overflows_once_in_256_periods() {
    let mut t = Timer::new();
    let mut intf = 0u8;
    t.write_byte(0xFF06, 0x42);
    t.write_byte(0xFF07, 0x05);
    t.step(256 * 16, &mut intf, Speed::Normal);
    assert_eq!(intf, 0x04);
    assert_eq!(t.read_byte(0xFF05), 0x42);
}

#[test]
fn counter_does_not_overflow_one_period_early() {
    let mut t = Timer::new();
    let mut intf = 0u8;
    t.write_byte(0xFF06, 0x42);
    t.write_byte(0xFF07, 0x05);
    t.step(255 * 16, &mut intf, Speed::Normal);
    assert_eq!(intf, 0x00);
    assert_eq!(t.read_byte(0xFF05), 0xFF);
    t.step(16, &mut intf, Speed::Normal);
    assert_eq!(intf, 0x04);
    assert_eq!(t.read_byte(0xFF05), 0x42);
}

#[test]
fn overflow_keeps_other_pending_interrupts() {
    let mut t = Timer::new();
    let mut intf = 0x01u8;
    t.write_byte(0xFF05, 0xFF);
    t.write_byte(0xFF07, 0x05);
    t.step(16, &mut intf, Speed::Normal);
    assert_eq!(intf, 0x05);
}

#[test]
fn each_rate_has_its_period() {
    let periods: [(u8, u32); 4] = [(0x04, 1024), (0x05, 16), (0x06, 64), (0x07, 256)];
    for (tac, cycles) in periods {
        let mut t = Timer::new();
        let mut intf = 0u8;
        t.write_byte(0xFF07, tac);
        t.step(cycles - 4, &mut intf, Speed::Normal);
        assert_eq!(t.read_byte(0xFF05), 0, "rate {:#x}", tac);
        t.step(4, &mut intf, Speed::Normal);
        assert_eq!(t.read_byte(0xFF05), 1, "rate {:#x}", tac);
    }
}

#[test]
fn disabled_counter_stands_still() {
    let mut t = Timer::new();
    let mut intf = 0u8;
    t.write_byte(0xFF07, 0x01);
    t.step(100_000, &mut intf, Speed::Normal);
    assert_eq!(t.read_byte(0xFF05), 0);
    assert_eq!(intf, 0);
}

#[test]
fn divider_counts_every_64_cycles() {
    let mut t = Timer::new();
    let mut intf = 0u8;
    t.step(60, &mut intf, Speed::Normal);
    assert_eq!(t.read_byte(0xFF04), 0);
    t.step(4, &mut intf, Speed::Normal);
    assert_eq!(t.read_byte(0xFF04), 1);
    t.step(64 * 255, &mut intf, Speed::Normal);
    assert_eq!(t.read_byte(0xFF04), 0);
    assert_eq!(intf, 0);
}

#[test]
fn divider_keeps_the_cycles_left_over() {
    let mut t = Timer::new();
    let mut intf = 0u8;
    t.step(63, &mut intf, Speed::Normal);
    t.step(63, &mut intf, Speed::Normal);
    assert_eq!(t.read_byte(0xFF04), 1);
    assert_eq!(t.clock.div, 62);
    t.step(2, &mut intf, Speed::Normal);
    assert_eq!(t.read_byte(0xFF04), 2);
    assert_eq!(t.clock.div, 0);
}

#[test]
fn double_speed_counts_four_times_as_fast() {
    let mut t = Timer::new();
    let mut intf = 0u8;
    t.step(64, &mut intf, Speed::Double);
    assert_eq!(t.read_byte(0xFF04), 1);
    t.write_byte(0xFF07, 0x05);
    t.step(4, &mut intf, Speed::Double);
    assert_eq!(t.read_byte(0xFF05), 1);
    t.write_byte(0xFF07, 0x04);
    t.step(255, &mut intf, Speed::Double);
    assert_eq!(t.read_byte(0xFF05), 1);
    t.step(1, &mut intf, Speed::Double);
    assert_eq!(t.read_byte(0xFF05), 2);
}

#[test]
fn any_write_clears_the_divider() {
    let mut t = Timer::new();
    let mut intf = 0u8;
    t.step(1024, &mut intf, Speed::Normal);
    assert_eq!(t.read_byte(0xFF04), 16);
    t.write_byte(0xFF04, 0x77);
    assert_eq!(t.read_byte(0xFF04), 0);
}

#[test]
fn registers_keep_what_is_written() {
    let mut t = Timer::new();
    t.write_byte(0xFF05, 0x12);
    t.write_byte(0xFF06, 0x34);
    t.write_byte(0xFF07, 0x06);
    assert_eq!(t.read_byte(0xFF05), 0x12);
    assert_eq!(t.read_byte(0xFF06), 0x34);
    assert_eq!(t.read_byte(0xFF07), 0x06);
    assert_eq!(t.speed, 64);
}

#[test]
fn steps_add_up() {
    let mut a = Timer::new();
    let mut b = Timer::new();
    let mut ia = 0u8;
    let mut ib = 0u8;
    a.write_byte(0xFF07, 0x05);
    b.write_byte(0xFF07, 0x05);
    a.step(1001, &mut ia, Speed::Normal);
    for _ in 0..143 {
        b.step(7, &mut ib, Speed::Normal);
    }
    assert_eq!(a, b);
    assert_eq!(ia, ib);
}
