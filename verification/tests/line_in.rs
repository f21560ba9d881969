use wm8731_alt::line_in::{left_line_in, right_line_in, InVoldB, LeftLineIn, RightLineIn};

#[test]
fn left_line_in_new() {
    let cmd = left_line_in().into_command();
    let expected = 0b0000_0000_1001_0111;
    assert!(
        cmd.into_raw() == expected,
        "Got {:#b},expected {:#b}",
        cmd.into_raw(),
        expected
    )
}

#[test]
fn right_line_in_new() {
    let cmd = right_line_in();
    let expected = 0b0000_0010_1001_0111;
    assert!(
        cmd.into_command().into_raw() == expected,
        "Got {:#b},expected {:#b}",
        cmd.into_command().into_raw(),
        expected
    )
}

#[test]
fn set_bits_dont_overwrite() {
    let cmd = right_line_in();
    let cmd = cmd.invol().bits(0b1111_1111);
    let expected = 0b0000_0010_1001_1111;
    assert!(
        cmd.into_command().into_raw() == expected,
        "Got {:#b},expected {:#b}",
        cmd.into_command().into_raw(),
        expected
    )
}

#[test]
fn line_in_new_equals_free_constructor() {
    assert_eq!(LeftLineIn::new(), left_line_in());
    assert_eq!(RightLineIn::new(), right_line_in());
}

#[test]
fn line_in_channels_differ_in_address_only() {
    let left = left_line_in().into_command().into_raw();
    let right = right_line_in().into_command().into_raw();
    assert_eq!(right ^ left, 1 << 9);
}

#[test]
fn line_in_volume_keeps_other_fields() {
    let cmd = left_line_in().invol().bits(0);
    assert_eq!(cmd.into_command().into_raw(), 0b0_1000_0000);
    let cmd = left_line_in().invol().bits(0b10101);
    assert_eq!(cmd.into_command().into_raw(), 0b0_1001_0101);
}

#[test]
fn line_in_mute_writes_bit_7() {
    assert_eq!(left_line_in().inmute().clear_bit().into_command().into_raw(), 0b0_0001_0111);
    assert_eq!(left_line_in().inmute().disable().into_command().into_raw(), 0b0_0001_0111);
    assert_eq!(left_line_in().inmute().bit(false).into_command().into_raw(), 0b0_0001_0111);
    assert_eq!(left_line_in().inmute().set_bit().into_command().into_raw(), 0b0_1001_0111);
    assert_eq!(left_line_in().inmute().enable().into_command().into_raw(), 0b0_1001_0111);
    assert_eq!(left_line_in().inmute().bit(true).into_command().into_raw(), 0b0_1001_0111);
}

#[test]
fn line_in_both_writes_bit_8() {
    assert_eq!(right_line_in().inboth().set_bit().into_command().into_raw(), 0b0000_0011_1001_0111);
    assert_eq!(right_line_in().inboth().enable().into_command().into_raw(), 0b0000_0011_1001_0111);
    assert_eq!(right_line_in().inboth().bit(true).into_command().into_raw(), 0b0000_0011_1001_0111);
    let both = right_line_in().inboth().set_bit();
    assert_eq!(both.inboth().clear_bit().into_command().into_raw(), 0b0000_0010_1001_0111);
    assert_eq!(both.inboth().disable().into_command().into_raw(), 0b0000_0010_1001_0111);
    assert_eq!(both.inboth().bit(false).into_command().into_raw(), 0b0000_0010_1001_0111);
}

#[test]
fn line_in_volume_steps() {
    assert_eq!(InVoldB::from_steps(0).unwrap().into_raw(), 0b10111);
    assert_eq!(InVoldB::from_steps(8).unwrap().into_raw(), 0b11111);
    assert_eq!(InVoldB::from_steps(-23).unwrap().into_raw(), 0b00000);
    assert_eq!(InVoldB::from_steps(-1).unwrap().into_raw(), 0b10110);
    assert!(InVoldB::from_steps(9).is_none());
    assert!(InVoldB::from_steps(-24).is_none());
    assert!(InVoldB::from_steps(127).is_none());
    assert!(InVoldB::from_steps(-128).is_none());
}

#[test]
fn line_in_volume_in_decibels() {
    let quiet = InVoldB::from_steps(-23).unwrap();
    assert_eq!(left_line_in().invol().db(quiet).into_command().into_raw(), 0b0_1000_0000);
    let loud = InVoldB::from_steps(8).unwrap();
    assert_eq!(left_line_in().invol().db(loud).into_command().into_raw(), 0b0_1001_1111);
    let unity = InVoldB::from_steps(0).unwrap();
    assert_eq!(left_line_in().invol().bits(0).invol().db(unity), left_line_in());
}

#[test]
fn line_in_write_twice_is_write_once() {
    let once = left_line_in().invol().bits(0b01010);
    assert_eq!(once.invol().bits(0b01010), once);
    let once = left_line_in().inmute().clear_bit();
    assert_eq!(once.inmute().clear_bit(), once);
    let once = left_line_in().inboth().set_bit();
    assert_eq!(once.inboth().set_bit(), once);
}
