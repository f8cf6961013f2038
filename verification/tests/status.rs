use nesemu_core::Status;

#[test]
fn init_has_no_flags_set() {
    let status = Status::init();
    assert!(!status.neg());
    assert!(!status.zero());
    assert!(!status.carry());
    assert!(!status.overflow());
}

#[test]
fn setters_toggle_single_flags() {
    let mut status = Status::init();

    status.set_carry(true);
    assert!(status.carry());
    assert!(!status.zero());
    assert!(!status.neg());
    assert!(!status.overflow());

    status.set_overflow(true);
    assert!(status.carry());
    assert!(status.overflow());

    status.set_carry(false);
    assert!(!status.carry());
    assert!(status.overflow());

    status.set_neg(true);
    status.set_zero(true);
    assert!(status.neg());
    assert!(status.zero());

    status.set_neg(false);
    status.set_zero(false);
    assert!(!status.neg());
    assert!(!status.zero());
}

#[test]
fn update_with_zero_sets_zero_flag() {
    let mut status = Status::init();
    status.update_with_value(0x00);
    assert!(status.zero());
    assert!(!status.neg());
}

#[test]
fn update_with_high_bit_sets_negative_flag() {
    let mut status = Status::init();
    status.update_with_value(0x80);
    assert!(status.neg());
    assert!(!status.zero());
}

#[test]
fn update_with_plain_value_sets_nothing() {
    let mut status = Status::init();
    status.update_with_value(0x42);
    assert!(!status.zero());
    assert!(!status.neg());
    assert!(!status.carry());
    assert!(!status.overflow());
}

#[test]
fn status_byte_conversion_packs_flags() {
    let status = Status::init();
    assert_eq!(u8::from(status), 0b0010_0000);

    let mut status = Status::init();
    status.set_carry(true);
    status.set_neg(true);
    assert_eq!(u8::from(status), 0b1010_0001);
}

#[test]
fn update_never_clears_flags() {
    let mut status = Status::init();
    status.set_zero(true);
    status.set_neg(true);
    status.set_carry(true);
    status.set_overflow(true);

    // 0x42 is neither zero nor negative, yet no flag is cleared.
    status.update_with_value(0x42);
    assert!(status.zero());
    assert!(status.neg());
    assert!(status.carry());
    assert!(status.overflow());
}
