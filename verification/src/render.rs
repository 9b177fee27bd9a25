//! The rendering of one line of up to 16 bytes: a row of hex tokens and a row
//! of ascii glyphs, each coloured by the class of its byte, with the digit
//! and the glyph under the cursor set off by a background.

use crate::byte_class::{class_of, classify, ByteClass};
use crate::hex::{hex_digit_char, high_digit, low_digit};
use crate::style::{push_item, Color, Span, SpanView, Style};
use vstd::prelude::*;

verus! {

/// The number of bytes in a full line.
pub const LINE_BYTES: usize = 16;

/// The index of the byte after which a row is parted in two groups.
pub const GROUP_END: usize = 7;

/// The character that parts the two groups of a row.
pub const DIVIDER: char = '\u{250a}';

/// The character shown for a control character.
pub const BULLET: char = '\u{2022}';

/// The colour of the bytes of a class, in both panes.
pub open spec fn class_color(class: ByteClass) -> Color {
    match class {
        ByteClass::Null => Color::DarkGray,
        ByteClass::Whitespace => Color::Green,
        ByteClass::Space => Color::Green,
        ByteClass::PrintableAscii => Color::LightCyan,
        ByteClass::ExtendedAscii => Color::Magenta,
        ByteClass::NonAscii => Color::Yellow,
    }
}

/// The colour behind the digit and the glyph under the cursor.
pub open spec fn highlight_color() -> Color {
    Color::DarkGray
}

/// The style of a byte that is not under the cursor.
pub open spec fn byte_style(val: u8) -> Style {
    Style::of(class_color(class_of(val)))
}

/// The style of a digit or glyph under the cursor: the highlight behind it,
/// and the colour of its class, but for the null byte, whose colour is that
/// of the highlight and gives way to black.
pub open spec fn cursor_style(val: u8) -> Style {
    Style {
        fg: Some(
            if class_color(class_of(val)) == highlight_color() {
                Color::Black
            } else {
                class_color(class_of(val))
            },
        ),
        bg: Some(highlight_color()),
    }
}

/// The character that stands for a byte in the ascii pane.
pub open spec fn glyph(val: u8) -> char {
    match class_of(val) {
        ByteClass::Null => '0',
        ByteClass::Space => ' ',
        ByteClass::Whitespace => '_',
        ByteClass::PrintableAscii => val as char,
        ByteClass::ExtendedAscii => BULLET,
        ByteClass::NonAscii => 'x',
    }
}

/// The glyph of a byte, in the style of its class or, under the cursor, in
/// the cursor's style.
pub open spec fn ascii_span(val: u8, lit: bool) -> SpanView {
    SpanView {
        content: seq![glyph(val)],
        style: if lit { cursor_style(val) } else { byte_style(val) },
    }
}

/// The token of a byte that is not under the cursor: a blank and its two
/// digits.
pub open spec fn hex_token(val: u8) -> SpanView {
    SpanView { content: seq![' ', high_digit(val), low_digit(val)], style: byte_style(val) }
}

/// One digit of the byte under the cursor.
pub open spec fn digit_span(val: u8, low: bool, lit: bool) -> SpanView {
    SpanView {
        content: seq![if low { low_digit(val) } else { high_digit(val) }],
        style: if lit { cursor_style(val) } else { byte_style(val) },
    }
}

/// The blank before the digits of the byte under the cursor.
pub open spec fn blank_span() -> SpanView {
    SpanView { content: seq![' '], style: Style::plain() }
}

/// The divider of the hex row.
pub open spec fn hex_divider() -> SpanView {
    SpanView { content: seq![' ', DIVIDER], style: Style::of(Color::White) }
}

/// The divider of the ascii row.
pub open spec fn ascii_divider() -> SpanView {
    SpanView { content: seq![DIVIDER], style: Style::of(Color::White) }
}

/// Where the cursor stands on byte `index` of a line: the nibble under it,
/// 0 for the high one and 1 for the low one. `cursor` is the cursor's nibble
/// within the line, if the line holds the cursor at all.
pub open spec fn nibble_on(cursor: Option<int>, index: int) -> Option<int> {
    match cursor {
        Some(c) => if c / 2 == index { Some(c % 2) } else { None },
        None => None,
    }
}

/// The spans of one byte in the hex row: its token, or, under the cursor, a
/// blank and its two digits apart, one of them lit.
pub open spec fn hex_cell(val: u8, nibble: Option<int>) -> Seq<SpanView> {
    match nibble {
        None => seq![hex_token(val)],
        Some(k) => seq![
            blank_span(),
            digit_span(val, false, k == 0),
            digit_span(val, true, k != 0),
        ],
    }
}

/// The divider, after the byte that ends the first group.
pub open spec fn divider_after(index: int, divider: SpanView) -> Seq<SpanView> {
    if index == GROUP_END as int {
        seq![divider]
    } else {
        Seq::empty()
    }
}

/// The hex row of the first `n` bytes of `buf`.
pub open spec fn hex_row(buf: Seq<u8>, n: nat, cursor: Option<int>) -> Seq<SpanView>
    decreases n,
{
    if n == 0 {
        Seq::empty()
    } else {
        let i = n - 1;
        hex_row(buf, i as nat, cursor) + hex_cell(buf[i], nibble_on(cursor, i)) + divider_after(
            i,
            hex_divider(),
        )
    }
}

/// The ascii row of the first `n` bytes of `buf`. `cursor` is the index of
/// the byte under the cursor, if the line holds it.
pub open spec fn ascii_row(buf: Seq<u8>, n: nat, cursor: Option<int>) -> Seq<SpanView>
    decreases n,
{
    if n == 0 {
        Seq::empty()
    } else {
        let i = n - 1;
        ascii_row(buf, i as nat, cursor).push(ascii_span(buf[i], cursor == Some(i)))
            + divider_after(i, ascii_divider())
    }
}

/// The number of bytes that a row shows of a line of `len` valid bytes.
pub open spec fn shown(len: usize) -> nat {
    if len < LINE_BYTES {
        len as nat
    } else {
        LINE_BYTES as nat
    }
}

impl ByteClass {
    /// The colour of the bytes of this class.
    pub fn color(self) -> (color: Color)
        ensures
            color == class_color(self),
    {
        match self {
            ByteClass::Null => Color::DarkGray,
            ByteClass::Whitespace => Color::Green,
            ByteClass::Space => Color::Green,
            ByteClass::PrintableAscii => Color::LightCyan,
            ByteClass::ExtendedAscii => Color::Magenta,
            ByteClass::NonAscii => Color::Yellow,
        }
    }
}

/// The style of the byte `val` where the cursor is not: the colour of its
/// class.
pub fn colorize(val: u8) -> (style: Style)
    ensures
        style == byte_style(val),
{
    Style::new().fg(classify(val).color())
}

/// The style of the byte `val` under the cursor.
pub fn highlight(val: u8) -> (style: Style)
    ensures
        style == cursor_style(val),
{
    let mut style = colorize(val);
    if style == Style::new().fg(Color::DarkGray) {
        style = Style::new().fg(Color::Black);
    }
    style.bg(Color::DarkGray)
}

/// A span of the one character `c`.
fn char_span(c: char, style: Style) -> (span: Span)
    ensures
        span@ == (SpanView { content: seq![c], style }),
{
    let mut content = String::new();
    content.push(c);
    Span { content, style }
}

/// The glyph of the byte `val` in the ascii pane, in the colour of its class.
pub fn render_ascii_char(val: u8) -> (span: Span)
    ensures
        span@ == ascii_span(val, false),
{
    let c: char = match classify(val) {
        ByteClass::Null => '0',
        ByteClass::Space => ' ',
        ByteClass::Whitespace => '_',
        ByteClass::PrintableAscii => val as char,
        ByteClass::ExtendedAscii => BULLET,
        ByteClass::NonAscii => 'x',
    };
    char_span(c, colorize(val))
}

/// The token of the byte `val` in the hex pane.
fn render_hex_token(val: u8) -> (span: Span)
    ensures
        span@ == hex_token(val),
{
    let mut content = String::new();
    content.push(' ');
    content.push(hex_digit_char(val / 16));
    content.push(hex_digit_char(val % 16));
    assert(content@ =~= seq![' ', high_digit(val), low_digit(val)]);
    Span { content, style: colorize(val) }
}

/// The divider of a row, after a blank in the hex pane.
fn render_divider(blank: bool) -> (span: Span)
    ensures
        span@ == if blank { hex_divider() } else { ascii_divider() },
{
    let mut content = String::new();
    if blank {
        content.push(' ');
    }
    content.push(DIVIDER);
    assert(content@ =~= if blank { seq![' ', DIVIDER] } else { seq![DIVIDER] });
    Span { content, style: Style::new().fg(Color::White) }
}

/// An empty row.
fn new_row() -> (row: Vec<Span>)
    ensures
        row.deep_view() == Seq::<SpanView>::empty(),
{
    Vec::new()
}

/// The number of bytes to show of a line of `len` valid bytes.
fn shown_bytes(len: usize) -> (n: usize)
    ensures
        n == shown(len),
        n <= LINE_BYTES,
{
    if len < LINE_BYTES {
        len
    } else {
        LINE_BYTES
    }
}

/// Renders the first `len` bytes of `buf`, 16 at most, as a row of hex
/// tokens, with the divider after the eighth.
pub fn render_hex_line(buf: [u8; 16], len: usize) -> (row: Vec<Span>)
    ensures
        row.deep_view() == hex_row(buf@, shown(len), None),
{
    let n = shown_bytes(len);
    let mut row = new_row();
    let mut i: usize = 0;
    while i < n
        invariant
            i <= n <= LINE_BYTES,
            row.deep_view() == hex_row(buf@, i as nat, None),
        decreases n - i,
    {
        push_item(&mut row, render_hex_token(buf[i]));
        if i == GROUP_END {
            push_item(&mut row, render_divider(true));
        }
        i = i + 1;
    }
    row
}

/// Renders the first `len` bytes of `buf`, 16 at most, as a row of hex
/// tokens, with the digit under the cursor lit. `cursor` counts the nibbles
/// of the line: it is on the byte `cursor / 2`, on its high digit where
/// `cursor` is even and on its low digit where it is odd. A cursor on no
/// shown byte lights nothing.
pub fn render_hex_line_with_cursor(buf: [u8; 16], cursor: usize, len: usize) -> (row: Vec<Span>)
    ensures
        row.deep_view() == hex_row(buf@, shown(len), Some(cursor as int)),
{
    let n = shown_bytes(len);
    let mut row = new_row();
    let mut i: usize = 0;
    while i < n
        invariant
            i <= n <= LINE_BYTES,
            row.deep_view() == hex_row(buf@, i as nat, Some(cursor as int)),
        decreases n - i,
    {
        let val = buf[i];
        if cursor / 2 == i {
            let plain = colorize(val);
            let lit = highlight(val);
            let on_high = cursor % 2 == 0;
            push_item(&mut row, char_span(' ', Style::new()));
            push_item(
                &mut row,
                char_span(hex_digit_char(val / 16), if on_high { lit } else { plain }),
            );
            push_item(
                &mut row,
                char_span(hex_digit_char(val % 16), if on_high { plain } else { lit }),
            );
        } else {
            push_item(&mut row, render_hex_token(val));
        }
        if i == GROUP_END {
            push_item(&mut row, render_divider(true));
        }
        i = i + 1;
    }
    row
}

/// Renders the first `len` bytes of `buf`, 16 at most, as a row of ascii
/// glyphs, with the divider after the eighth.
pub fn render_ascii_line(buf: [u8; 16], len: usize) -> (row: Vec<Span>)
    ensures
        row.deep_view() == ascii_row(buf@, shown(len), None),
{
    let n = shown_bytes(len);
    let mut row = new_row();
    let mut i: usize = 0;
    while i < n
        invariant
            i <= n <= LINE_BYTES,
            row.deep_view() == ascii_row(buf@, i as nat, None),
        decreases n - i,
    {
        push_item(&mut row, render_ascii_char(buf[i]));
        if i == GROUP_END {
            push_item(&mut row, render_divider(false));
        }
        i = i + 1;
    }
    row
}

/// Renders the first `len` bytes of `buf`, 16 at most, as a row of ascii
/// glyphs, with the glyph of the byte `cursor` lit. A cursor on no shown
/// byte lights nothing.
pub fn render_ascii_line_with_cursor(buf: [u8; 16], cursor: u8, len: usize) -> (row: Vec<Span>)
    ensures
        row.deep_view() == ascii_row(buf@, shown(len), Some(cursor as int)),
{
    let n = shown_bytes(len);
    let mut row = new_row();
    let mut i: usize = 0;
    while i < n
        invariant
            i <= n <= LINE_BYTES,
            row.deep_view() == ascii_row(buf@, i as nat, Some(cursor as int)),
        decreases n - i,
    {
        let mut span = render_ascii_char(buf[i]);
        if i == cursor as usize {
            span.style = highlight(buf[i]);
        }
        push_item(&mut row, span);
        if i == GROUP_END {
            push_item(&mut row, render_divider(false));
        }
        i = i + 1;
    }
    row
}

/// The span carries the highlight behind it.
pub open spec fn lit(span: SpanView) -> bool {
    span.style.bg == Some(highlight_color())
}

/// The place in the ascii row of the glyph of byte `index`: the divider
/// stands before the bytes of the second group.
pub open spec fn ascii_pos(index: int) -> int {
    if index > GROUP_END as int {
        index + 1
    } else {
        index
    }
}

/// The place in the hex row of the first span of byte `index`: the divider
/// stands before the bytes of the second group, and the byte under the
/// cursor takes three spans.
pub open spec fn hex_pos(index: int, cursor: Option<int>) -> int {
    ascii_pos(index) + match cursor {
        Some(c) => if 0 <= c / 2 < index { 2int } else { 0int },
        None => 0int,
    }
}

/// The shape of an ascii row of `n` bytes. It has one glyph for each byte,
/// in the order of the bytes, and the divider, in the ninth place, exactly
/// where it has more than seven bytes. No glyph is the divider.
pub proof fn lemma_ascii_row_shape(buf: Seq<u8>, n: nat, cursor: Option<int>)
    ensures
        ascii_row(buf, n, cursor).len() == ascii_pos(n as int),
        forall|i: int|
            0 <= i < n ==> ascii_row(buf, n, cursor)[#[trigger] ascii_pos(i)] == ascii_span(
                buf[i],
                cursor == Some(i),
            ),
        n > GROUP_END ==> ascii_row(buf, n, cursor)[GROUP_END + 1] == ascii_divider(),
        forall|j: int|
            0 <= j < ascii_row(buf, n, cursor).len() && #[trigger] ascii_row(buf, n, cursor)[j]
                == ascii_divider() ==> n > GROUP_END && j == GROUP_END + 1,
    decreases n,
{
    if n > 0 {
        lemma_ascii_row_shape(buf, (n - 1) as nat, cursor);
        lemma_glyph_is_no_divider(buf[n - 1]);
    }
}

/// No byte has the divider for its glyph.
pub proof fn lemma_glyph_is_no_divider(val: u8)
    ensures
        glyph(val) != DIVIDER,
{
}

/// At most one glyph of an ascii row is lit: that of the byte under the
/// cursor, where the row shows that byte.
pub proof fn lemma_ascii_row_lit(buf: Seq<u8>, n: nat, cursor: Option<int>, j: int)
    requires
        0 <= j < ascii_row(buf, n, cursor).len(),
    ensures
        lit(ascii_row(buf, n, cursor)[j]) <==> (cursor matches Some(c) && 0 <= c < n && j
            == ascii_pos(c)),
    decreases n,
{
    lemma_ascii_row_shape(buf, (n - 1) as nat, cursor);
    if j < ascii_row(buf, (n - 1) as nat, cursor).len() {
        lemma_ascii_row_lit(buf, (n - 1) as nat, cursor, j);
    }
}

/// The spans of byte `index` in a hex row under `cursor`.
pub open spec fn hex_cell_at(buf: Seq<u8>, index: int, cursor: Option<int>) -> Seq<SpanView> {
    hex_cell(buf[index], nibble_on(cursor, index))
}

/// The place in the hex row of the divider.
pub open spec fn hex_divider_pos(cursor: Option<int>) -> int {
    hex_pos(GROUP_END + 1, cursor) - 1
}

/// The shape of a hex row of `n` bytes. It has the spans of each byte, in
/// the order of the bytes: one token, or three spans for the byte under the
/// cursor. It has the divider, after the spans of the eighth byte, exactly
/// where it has more than seven bytes. No span of a byte is the divider.
pub proof fn lemma_hex_row_shape(buf: Seq<u8>, n: nat, cursor: Option<int>)
    ensures
        hex_row(buf, n, cursor).len() == hex_pos(n as int, cursor),
        forall|i: int, t: int|
            0 <= i < n && 0 <= t < hex_cell_at(buf, i, cursor).len() ==> hex_row(buf, n, cursor)[
                hex_pos(i, cursor) + t] == #[trigger] hex_cell_at(buf, i, cursor)[t],
        n > GROUP_END ==> hex_row(buf, n, cursor)[hex_divider_pos(cursor)] == hex_divider(),
        forall|j: int|
            0 <= j < hex_row(buf, n, cursor).len() && #[trigger] hex_row(buf, n, cursor)[j]
                == hex_divider() ==> n > GROUP_END && j == hex_divider_pos(cursor),
    decreases n,
{
    if n > 0 {
        lemma_hex_row_shape(buf, (n - 1) as nat, cursor);
    }
}

/// At most one span of a hex row is lit: the digit under the cursor, where
/// the row shows the byte under the cursor. It is the second span of that
/// byte for the high digit and the third for the low one.
pub proof fn lemma_hex_row_lit(buf: Seq<u8>, n: nat, cursor: Option<int>, j: int)
    requires
        0 <= j < hex_row(buf, n, cursor).len(),
    ensures
        lit(hex_row(buf, n, cursor)[j]) <==> (cursor matches Some(c) && 0 <= c / 2 < n && j
            == ascii_pos(c / 2) + 1 + c % 2),
    decreases n,
{
    lemma_hex_row_shape(buf, (n - 1) as nat, cursor);
    if j < hex_row(buf, (n - 1) as nat, cursor).len() {
        lemma_hex_row_lit(buf, (n - 1) as nat, cursor, j);
    }
}

/// A cursor on no shown byte leaves the rows as they are without a cursor.
pub proof fn lemma_cursor_off_line(buf: Seq<u8>, n: nat, c: int)
    requires
        c / 2 < 0 || c / 2 >= n,
    ensures
        hex_row(buf, n, Some(c)) == hex_row(buf, n, None),
        ascii_row(buf, n, Some(c / 2)) == ascii_row(buf, n, None),
    decreases n,
{
    if n > 0 {
        lemma_cursor_off_line(buf, (n - 1) as nat, c);
    }
}

/// In the two rows of a line, the highlight is on one digit and on one glyph
/// at most, and both are of one byte: the byte under the cursor. `c` is the
/// cursor's nibble within the line.
pub proof fn lemma_highlight_is_one(buf: Seq<u8>, n: nat, c: int, j: int, k: int)
    requires
        0 <= j < hex_row(buf, n, Some(c)).len(),
        0 <= k < ascii_row(buf, n, Some(c / 2)).len(),
    ensures
        lit(hex_row(buf, n, Some(c))[j]) ==> 0 <= c / 2 < n && j == hex_pos(c / 2, Some(c)) + 1 + c
            % 2 && hex_row(buf, n, Some(c))[j] == digit_span(buf[c / 2], c % 2 != 0, true),
        lit(ascii_row(buf, n, Some(c / 2))[k]) ==> 0 <= c / 2 < n && k == ascii_pos(c / 2)
            && ascii_row(buf, n, Some(c / 2))[k] == ascii_span(buf[c / 2], true),
        0 <= c / 2 < n ==> lit(hex_row(buf, n, Some(c))[hex_pos(c / 2, Some(c)) + 1 + c % 2])
            && lit(ascii_row(buf, n, Some(c / 2))[ascii_pos(c / 2)]),
{
    lemma_hex_row_lit(buf, n, Some(c), j);
    lemma_ascii_row_lit(buf, n, Some(c / 2), k);
    lemma_hex_row_shape(buf, n, Some(c));
    lemma_ascii_row_shape(buf, n, Some(c / 2));
    if 0 <= c / 2 < n {
        let digits = hex_cell_at(buf, c / 2, Some(c));
        assert(hex_row(buf, n, Some(c))[hex_pos(c / 2, Some(c)) + 1 + c % 2] == digits[1 + c % 2]);
    }
}

/// Rendering has no state of its own: the rows are a function of the bytes,
/// of the number of them that is shown and of the cursor. Two hex rows, or
/// two ascii rows, that were rendered from the same three are the same row.
pub proof fn lemma_rendering_repeats(
    first: Seq<SpanView>,
    second: Seq<SpanView>,
    buf: Seq<u8>,
    n: nat,
    cursor: Option<int>,
)
    requires
        first == hex_row(buf, n, cursor) && second == hex_row(buf, n, cursor) || first
            == ascii_row(buf, n, cursor) && second == ascii_row(buf, n, cursor),
    ensures
        first == second,
{
}

} // verus!
