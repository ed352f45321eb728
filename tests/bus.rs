use nes_play::bus::Bus;

#[test]
fn ram_write_is_seen_at_every_mirror() {
    let mut bus = Bus::new();
    bus.write(0x0000, 0xAB);
    assert_eq!(bus.read(0x0000), 0xAB);
    assert_eq!(bus.read(0x0800), 0xAB);
    assert_eq!(bus.read(0x1000), 0xAB);
    assert_eq!(bus.read(0x1800), 0xAB);
}

#[test]
fn unmapped_write_is_dropped_and_reads_zero() {
    let mut bus = Bus::new();
    bus.write(0x4020, 0x77);
    assert_eq!(bus.read(0x4020), 0);
    bus.write(0xFFFE, 0x12);
    assert_eq!(bus.read(0xFFFE), 0);
}

#[test]
fn write_through_a_mirror_reaches_the_base_address() {
    let mut bus = Bus::new();
    bus.write(0x1FFF, 0x42);
    assert_eq!(bus.read(0x07FF), 0x42);
    assert_eq!(bus.read(0x0FFF), 0x42);
}

#[test]
fn device_registers_repeat_every_eight_bytes() {
    let mut bus = Bus::new();
    bus.write(0x2002, 0x5A);
    assert_eq!(bus.read(0x200A), 0x5A);
    assert_eq!(bus.read(0x3FFA), 0x5A);
    assert_eq!(bus.read(0x2003), 0);
    // the register block is separate from RAM
    assert_eq!(bus.read(0x0002), 0);
    assert_eq!(bus.read(0x0802), 0);
}

#[test]
fn reset_zeroes_ram_and_registers() {
    let mut bus = Bus::new();
    bus.write(0x0123, 9);
    bus.write(0x2007, 9);
    bus.reset();
    assert_eq!(bus.read(0x0123), 0);
    assert_eq!(bus.read(0x2007), 0);
}

#[test]
fn load_program_writes_consecutive_bytes() {
    let mut bus = Bus::new();
    bus.load_program(0x0600, &[0xA9, 0x01, 0x8D]);
    assert_eq!(bus.read(0x0600), 0xA9);
    assert_eq!(bus.read(0x0601), 0x01);
    assert_eq!(bus.read(0x0602), 0x8D);
    assert_eq!(bus.read(0x0603), 0x00);
}

#[test]
fn load_program_crossing_the_ram_end_drops_unbacked_bytes() {
    let mut bus = Bus::new();
    bus.load_program(0x3FFF, &[0x11, 0x22]);
    assert_eq!(bus.read(0x2007), 0x11);
    assert_eq!(bus.read(0x4000), 0);
}
