use hexview::hex::{format_address, push_hex};

#[test]
fn address_zero() {
    assert_eq!(format_address(0), "00000000");
}

#[test]
fn address_of_second_line() {
    assert_eq!(format_address(0x10), "00000010");
}

#[test]
fn address_uses_lower_case() {
    assert_eq!(format_address(0xdead_beef), "deadbeef");
    assert_eq!(format_address(0xabc), "00000abc");
}

#[test]
fn address_beyond_eight_digits_keeps_all_digits() {
    assert_eq!(format_address(0x1_0000_0000), "100000000");
    assert_eq!(format_address(u64::MAX), "ffffffffffffffff");
}

#[test]
fn address_agrees_with_std_formatting() {
    let samples = [
        0u64,
        1,
        9,
        10,
        15,
        16,
        255,
        256,
        4095,
        0x0fff_ffff,
        0x1000_0000,
        0xffff_ffff,
        0x1_0000_0000,
        0x7fff_ffff_ffff_ffff,
        u64::MAX,
    ];
    for v in samples {
        assert_eq!(format_address(v), format!("{:08x}", v));
    }
}

#[test]
fn push_hex_appends_to_what_is_there() {
    let mut s = String::from("0x");
    push_hex(&mut s, 0x0a, 2);
    assert_eq!(s, "0x0a");
    push_hex(&mut s, 0xff, 2);
    assert_eq!(s, "0x0aff");
}

#[test]
fn push_hex_width_zero_still_gives_a_digit() {
    let mut s = String::new();
    push_hex(&mut s, 0, 0);
    assert_eq!(s, "0");
}

#[test]
fn push_hex_width_is_a_minimum() {
    let mut s = String::new();
    push_hex(&mut s, 0x12345, 2);
    assert_eq!(s, "12345");
}

#[test]
fn push_hex_agrees_with_std_for_every_byte() {
    for v in 0..=255u64 {
        let mut s = String::new();
        push_hex(&mut s, v, 2);
        assert_eq!(s, format!("{:02x}", v));
    }
}
