use nes_play::status::ProcessStatus;

#[test]
fn new_status_has_every_flag_clear() {
    let s = ProcessStatus::new();
    assert_eq!(s.raw(), 0);
    assert!(!s.get_carry_flag());
    assert!(!s.get_zero_flag());
    assert!(!s.get_interrupt_disable_flag());
    assert!(!s.get_decimal_mode_flag());
    assert!(!s.get_break_command());
    assert!(!s.get_overflow_flag());
    assert!(!s.get_negative_flag());
}

#[test]
fn each_flag_has_its_own_bit() {
    let mut s = ProcessStatus::new();
    s.set_carry_flag();
    assert_eq!(s.raw(), 0b0000_0001);
    s.set_zero_flag();
    assert_eq!(s.raw(), 0b0000_0011);
    s.set_interrupt_disable_flag();
    assert_eq!(s.raw(), 0b0000_0111);
    s.set_decimal_mode_flag();
    assert_eq!(s.raw(), 0b0000_1111);
    s.set_break_command();
    assert_eq!(s.raw(), 0b0001_1111);
    s.set_overflow_flag();
    assert_eq!(s.raw(), 0b0011_1111);
    s.set_negative_flag();
    assert_eq!(s.raw(), 0b0111_1111);
    assert!(s.get_carry_flag() && s.get_zero_flag() && s.get_interrupt_disable_flag());
    assert!(s.get_decimal_mode_flag() && s.get_break_command());
    assert!(s.get_overflow_flag() && s.get_negative_flag());
}

#[test]
fn clearing_a_flag_keeps_the_others() {
    let mut s = ProcessStatus::new();
    s.set_raw(0xFF);
    s.clear_carry_flag();
    assert_eq!(s.raw(), 0xFE);
    s.clear_zero_flag();
    assert_eq!(s.raw(), 0xFC);
    s.clear_interrupt_disable_flag();
    assert_eq!(s.raw(), 0xF8);
    s.clear_decimal_mode_flag();
    assert_eq!(s.raw(), 0xF0);
    s.clear_break_command();
    assert_eq!(s.raw(), 0xE0);
    s.clear_overflow_flag();
    assert_eq!(s.raw(), 0xC0);
    s.clear_negative_flag();
    assert_eq!(s.raw(), 0x80);
    assert!(!s.get_negative_flag());
}

#[test]
fn raw_byte_round_trips_undefined_bits() {
    let mut s = ProcessStatus::new();
    s.set_raw(0b1000_0000);
    assert_eq!(s.raw(), 0b1000_0000);
    s.set_carry_flag();
    assert_eq!(s.raw(), 0b1000_0001);
}
