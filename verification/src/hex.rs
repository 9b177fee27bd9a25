//! Hexadecimal text: the digits of a byte and the label of an address.

use vstd::prelude::*;

verus! {

/// The lower-case hexadecimal digit for a value below 16.
pub open spec fn hex_digit(n: int) -> char
    recommends
        0 <= n < 16,
{
    if n < 10 {
        (0x30 + n) as char
    } else {
        (0x57 + n) as char
    }
}

/// The digit of the high nibble of `b`.
pub open spec fn high_digit(b: u8) -> char {
    hex_digit(b as int / 16)
}

/// The digit of the low nibble of `b`.
pub open spec fn low_digit(b: u8) -> char {
    hex_digit(b as int % 16)
}

/// `v` in lower-case hexadecimal, padded with zeros on the left to `width`
/// digits. A value that needs more digits has them all.
pub open spec fn hex_text(v: nat, width: nat) -> Seq<char>
    decreases v, width,
{
    if v >= 16 || width > 1 {
        hex_text(v / 16, if width > 0 { (width - 1) as nat } else { 0 }).push(
            hex_digit((v % 16) as int),
        )
    } else {
        seq![hex_digit(v as int)]
    }
}

/// The number of digits of an address label.
pub const ADDRESS_DIGITS: u8 = 8;

/// The label of the line at `address`: eight hexadecimal digits, or as many
/// as the address needs.
pub open spec fn address_text(address: nat) -> Seq<char> {
    hex_text(address, ADDRESS_DIGITS as nat)
}

/// The hexadecimal digit for a value below 16.
pub(crate) fn hex_digit_char(n: u8) -> (c: char)
    requires
        n < 16,
    ensures
        c == hex_digit(n as int),
{
    if n < 10 {
        (0x30 + n) as char
    } else {
        (0x57 + n) as char
    }
}

/// Appends `v` in hexadecimal to `s`, in at least `width` digits.
pub fn push_hex(s: &mut String, v: u64, width: u8)
    ensures
        final(s)@ == old(s)@ + hex_text(v as nat, width as nat),
    decreases v, width,
{
    if v >= 16 || width > 1 {
        let rest: u8 = if width > 0 { width - 1 } else { 0 };
        push_hex(s, v / 16, rest);
    }
    s.push(hex_digit_char((v % 16) as u8));
}

/// The label of the line at `address`.
pub fn format_address(address: u64) -> (label: String)
    ensures
        label@ == address_text(address as nat),
{
    let mut label = String::new();
    push_hex(&mut label, address, ADDRESS_DIGITS);
    label
}

/// The number of hexadecimal digits that `v` needs.
pub open spec fn hex_len(v: nat) -> nat
    decreases v,
{
    if v < 16 {
        1
    } else {
        hex_len(v / 16) + 1
    }
}

/// A hexadecimal text has as many digits as its value needs, or as many as
/// the width asks for, whichever is more.
pub proof fn lemma_hex_text_len(v: nat, width: nat)
    ensures
        hex_text(v, width).len() == if width > hex_len(v) { width } else { hex_len(v) },
    decreases v, width,
{
    if v >= 16 || width > 1 {
        lemma_hex_text_len(v / 16, if width > 0 { (width - 1) as nat } else { 0 });
    }
}

/// The label of an address below 2^32 has eight digits.
pub proof fn lemma_address_text_len(address: nat)
    requires
        address < 0x1_0000_0000,
    ensures
        address_text(address).len() == 8,
{
    lemma_hex_text_len(address, ADDRESS_DIGITS as nat);
    assert(hex_len(address) <= 8) by {
        reveal_with_fuel(hex_len, 9);
    }
}

} // verus!
