//! The classes of byte values. The class of a byte picks its colour in both
//! panes and its glyph in the ascii pane.

use vstd::prelude::*;

verus! {

/// The class of one byte value.
#[derive(Clone, Copy, Debug, PartialEq, Eq, Structural)]
pub enum ByteClass {
    /// The byte `0x00`.
    Null,
    /// Tab, line feed, form feed or carriage return.
    Whitespace,
    /// The byte `0x20`.
    Space,
    /// A visible ascii character, `0x21` to `0x7e`.
    PrintableAscii,
    /// Any other value below `0x80`: the control characters.
    ExtendedAscii,
    /// A value of `0x80` or more.
    NonAscii,
}

/// The ascii whitespace bytes: space, tab, line feed, form feed and carriage
/// return.
pub open spec fn is_ascii_whitespace(v: u8) -> bool {
    v == 0x20 || v == 0x09 || v == 0x0a || v == 0x0c || v == 0x0d
}

/// The ascii bytes.
pub open spec fn is_ascii(v: u8) -> bool {
    v < 0x80
}

/// The class of the byte `v`.
pub open spec fn class_of(v: u8) -> ByteClass {
    if v == 0x00 {
        ByteClass::Null
    } else if v == 0x20 {
        ByteClass::Space
    } else if is_ascii_whitespace(v) {
        ByteClass::Whitespace
    } else if 0x21 <= v <= 0x7e {
        ByteClass::PrintableAscii
    } else if is_ascii(v) {
        ByteClass::ExtendedAscii
    } else {
        ByteClass::NonAscii
    }
}

/// Classifies a byte value.
pub fn classify(v: u8) -> (class: ByteClass)
    ensures
        class == class_of(v),
{
    if v == 0x00 {
        ByteClass::Null
    } else if v == 0x20 {
        ByteClass::Space
    } else if v == 0x09 || v == 0x0a || v == 0x0c || v == 0x0d {
        ByteClass::Whitespace
    } else if v > 0x20 && v < 0x7f {
        ByteClass::PrintableAscii
    } else if v < 0x80 {
        ByteClass::ExtendedAscii
    } else {
        ByteClass::NonAscii
    }
}

/// Each class is one set of byte values, and the six sets part the byte
/// values among them.
pub proof fn lemma_class_ranges(v: u8)
    ensures
        class_of(v) is Null <==> v == 0x00,
        class_of(v) is Space <==> v == 0x20,
        class_of(v) is Whitespace <==> v == 0x09 || v == 0x0a || v == 0x0c || v == 0x0d,
        class_of(v) is PrintableAscii <==> 0x21 <= v <= 0x7e,
        class_of(v) is ExtendedAscii <==> 0x01 <= v <= 0x08 || v == 0x0b || 0x0e <= v <= 0x1f
            || v == 0x7f,
        class_of(v) is NonAscii <==> 0x80 <= v,
{
}

} // verus!
