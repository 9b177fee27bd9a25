//! One frame of the view: the three panes of the screen and the rows in
//! them, made from the state, the surface and the bytes of the window.

use crate::hex::{address_text, format_address};
use crate::layout::{split_columns, Rect};
use crate::render::{
    ascii_pos, ascii_row, hex_pos, hex_row, lemma_ascii_row_lit, lemma_hex_row_lit, lit,
    render_ascii_line, render_ascii_line_with_cursor, render_hex_line,
    render_hex_line_with_cursor,
};
use crate::state::{ViewModel, ViewState, LINE_LEN, LINE_NIBBLES, MAX_FILE_LEN};
use crate::style::{push_item, Color, Span, SpanView, Style};
use vstd::prelude::*;

verus! {

/// The width of the address pane.
pub const ADDRESS_PANE_WIDTH: u16 = 10;

/// The width of the hex pane.
pub const HEX_PANE_WIDTH: u16 = 52;

/// The width of the ascii pane.
pub const ASCII_PANE_WIDTH: u16 = 18;

/// The rows of a pane that its border takes.
pub const BORDER_ROWS: u16 = 2;

/// One pane of the screen: where it lies, and its rows from the top.
#[derive(Debug)]
pub struct Pane {
    /// The area of the pane, border and all.
    pub area: Rect,
    /// The rows of the pane, inside its border.
    pub lines: Vec<Vec<Span>>,
}

/// What a pane is to a contract.
pub struct PaneView {
    pub area: Rect,
    pub lines: Seq<Seq<SpanView>>,
}

impl View for Pane {
    type V = PaneView;

    open spec fn view(&self) -> PaneView {
        PaneView { area: self.area, lines: self.lines.deep_view() }
    }
}

/// One frame: the address pane, the hex pane and the ascii pane.
#[derive(Debug)]
pub struct Screen {
    /// The addresses of the lines.
    pub address: Pane,
    /// The bytes in hexadecimal.
    pub hex: Pane,
    /// The bytes as characters.
    pub ascii: Pane,
}

/// What a screen is to a contract.
pub struct ScreenView {
    pub address: PaneView,
    pub hex: PaneView,
    pub ascii: PaneView,
}

impl View for Screen {
    type V = ScreenView;

    open spec fn view(&self) -> ScreenView {
        ScreenView { address: self.address@, hex: self.hex@, ascii: self.ascii@ }
    }
}

/// The number of lines that a pane of `height` rows shows inside its border.
pub open spec fn visible_rows(height: u16) -> nat {
    if height >= BORDER_ROWS {
        (height - BORDER_ROWS) as nat
    } else {
        0
    }
}

/// The state as a frame begins on a hex pane of `hex_height` rows: the
/// number of visible lines is measured, and reading starts at the offset.
pub open spec fn frame_start(m: ViewModel, hex_height: u16) -> ViewModel {
    ViewModel { rows: visible_rows(hex_height), read_pos: m.offset, ..m }
}

/// The number of lines that a frame on a hex pane of `hex_height` rows
/// reads and shows: those that hold the rest of the file, as far as the pane
/// shows lines.
pub open spec fn frame_lines(m: ViewModel, hex_height: u16) -> nat {
    m.lines_to_read(visible_rows(hex_height))
}

/// The state when that frame is made: the read position is after the last
/// line read.
pub open spec fn frame_end(m: ViewModel, hex_height: u16) -> ViewModel {
    ViewModel {
        rows: visible_rows(hex_height),
        read_pos: (m.offset + LINE_LEN * frame_lines(m, hex_height)) as nat,
        ..m
    }
}

/// The label of the line at `address`, in dark gray.
pub open spec fn address_span(address: nat) -> SpanView {
    SpanView { content: address_text(address), style: Style::of(Color::DarkGray) }
}

/// The rows of an address pane whose first line is at `offset`: one label
/// for each of `count` lines, a line apart.
pub open spec fn address_labels(offset: nat, count: nat) -> Seq<Seq<SpanView>> {
    Seq::new(count, |k: int| seq![address_span((offset + LINE_LEN * k) as nat)])
}

/// The rows of the address pane in state `m`, for the `count` lines of a
/// frame.
pub open spec fn address_lines(m: ViewModel, count: nat) -> Seq<Seq<SpanView>> {
    address_labels(m.offset, count)
}

/// The cursor's nibble within row `i` of the window, if that row holds the
/// cursor.
pub open spec fn row_cursor(m: ViewModel, i: int) -> Option<int> {
    if m.cursor_row() == i {
        Some(m.cursor_in_line() as int)
    } else {
        None
    }
}

/// The cursor's byte within row `i` of the window, if that row holds the
/// cursor.
pub open spec fn row_cursor_byte(m: ViewModel, i: int) -> Option<int> {
    match row_cursor(m, i) {
        Some(c) => Some(c / 2),
        None => None,
    }
}

/// Row `i` of the hex pane, in a frame that begins in state `m` on the
/// window buffer `window`.
pub open spec fn hex_line(m: ViewModel, window: Seq<u8>, i: nat) -> Seq<SpanView> {
    let at = m.advanced_by(i);
    hex_row(at.next_bytes(window), at.next_valid_len(window.len()), row_cursor(m, i as int))
}

/// Row `i` of the ascii pane.
pub open spec fn ascii_line(m: ViewModel, window: Seq<u8>, i: nat) -> Seq<SpanView> {
    let at = m.advanced_by(i);
    ascii_row(
        at.next_bytes(window),
        at.next_valid_len(window.len()),
        row_cursor_byte(m, i as int),
    )
}

/// The first `count` rows of the hex pane.
pub open spec fn hex_lines(m: ViewModel, window: Seq<u8>, count: nat) -> Seq<Seq<SpanView>> {
    Seq::new(count, |i: int| hex_line(m, window, i as nat))
}

/// The first `count` rows of the ascii pane.
pub open spec fn ascii_lines(m: ViewModel, window: Seq<u8>, count: nat) -> Seq<Seq<SpanView>> {
    Seq::new(count, |i: int| ascii_line(m, window, i as nat))
}

/// The number of lines that a pane of `height` rows shows inside its border.
pub fn visible_lines(height: u16) -> (rows: u16)
    ensures
        rows == visible_rows(height),
{
    if height >= BORDER_ROWS {
        height - BORDER_ROWS
    } else {
        0
    }
}

/// No rows yet.
fn new_lines() -> (lines: Vec<Vec<Span>>)
    ensures
        lines.deep_view() == Seq::<Seq<SpanView>>::empty(),
{
    let lines: Vec<Vec<Span>> = Vec::new();
    lines
}

/// The row of the address pane for the line at `address`.
fn render_address(address: u64) -> (row: Vec<Span>)
    ensures
        row.deep_view() == seq![address_span(address as nat)],
{
    let mut row: Vec<Span> = Vec::new();
    row.push(Span { content: format_address(address), style: Style::new().fg(Color::DarkGray) });
    row
}

/// The rows of an address pane for `count` lines, the first of them at
/// `offset`.
fn render_addresses(offset: u64, count: u64) -> (lines: Vec<Vec<Span>>)
    requires
        offset <= MAX_FILE_LEN,
        count <= u16::MAX,
    ensures
        lines.deep_view() == address_labels(offset as nat, count as nat),
{
    let mut lines = new_lines();
    let mut k: u64 = 0;
    while k < count
        invariant
            k <= count <= u16::MAX,
            offset <= MAX_FILE_LEN,
            lines.deep_view() == address_labels(offset as nat, k as nat),
        decreases count - k,
    {
        push_item(&mut lines, render_address(offset + LINE_LEN * k));
        k = k + 1;
    }
    lines
}

/// The widths of the address pane, the hex pane and the ascii pane, from
/// left to right: what the layout is asked for.
pub fn pane_widths() -> (widths: Vec<u16>)
    ensures
        widths@ == seq![ADDRESS_PANE_WIDTH, HEX_PANE_WIDTH, ASCII_PANE_WIDTH],
{
    let mut widths: Vec<u16> = Vec::new();
    widths.push(ADDRESS_PANE_WIDTH);
    widths.push(HEX_PANE_WIDTH);
    widths.push(ASCII_PANE_WIDTH);
    widths
}

/// Makes a frame in three given areas. Each pane has a row for each line
/// that is read: the lines that hold the rest of the file, as far as the hex
/// area shows lines inside its border. The address pane has the label of the
/// line, the hex pane its tokens and the ascii pane its glyphs; the rows
/// below the last line stay blank in all three. The lines are read from
/// `window`, the buffer that holds the bytes of the file from the window's
/// offset on. The row that holds the cursor has its digit and its glyph lit.
///
/// The state records the number of lines that the hex area shows, and its
/// read position ends after the last line read.
pub fn compose(
    state: &mut ViewState,
    address_area: Rect,
    hex_area: Rect,
    ascii_area: Rect,
    window: &[u8],
) -> (screen: Screen)
    ensures
        final(state)@.wf(),
        final(state)@ == frame_end(old(state)@, hex_area.height),
        screen@.address.area == address_area,
        screen@.hex.area == hex_area,
        screen@.ascii.area == ascii_area,
        screen@.address.lines == address_lines(
            old(state)@,
            frame_lines(old(state)@, hex_area.height),
        ),
        screen@.hex.lines == hex_lines(
            frame_start(old(state)@, hex_area.height),
            window@,
            frame_lines(old(state)@, hex_area.height),
        ),
        screen@.ascii.lines == ascii_lines(
            frame_start(old(state)@, hex_area.height),
            window@,
            frame_lines(old(state)@, hex_area.height),
        ),
{
    let rows = visible_lines(hex_area.height);
    state.set_visible_line_count(rows as usize);
    state.reset();
    let count = state.lines_to_read(rows);
    let addresses = render_addresses(state.offset(), count);
    let cursor_row = state.cursor_row();
    let nibble = state.cursor_in_line();
    let ghost start = state@;
    let mut hex = new_lines();
    let mut ascii = new_lines();
    let mut i: u64 = 0;
    while i < count
        invariant
            i <= count,
            state@.wf(),
            state@ == start.advanced_by(i as nat),
            cursor_row is None <==> start.cursor_row() < 0,
            cursor_row matches Some(r) ==> r == start.cursor_row(),
            nibble == start.cursor_in_line(),
            nibble < LINE_NIBBLES,
            hex.deep_view() == hex_lines(start, window@, i as nat),
            ascii.deep_view() == ascii_lines(start, window@, i as nat),
        decreases count - i,
    {
        let line = state.next_line(window);
        let on_cursor = match cursor_row {
            Some(row) => row == i,
            None => false,
        };
        if on_cursor {
            push_item(&mut hex, render_hex_line_with_cursor(line.bytes, nibble, line.valid_len));
            push_item(
                &mut ascii,
                render_ascii_line_with_cursor(line.bytes, (nibble / 2) as u8, line.valid_len),
            );
        } else {
            push_item(&mut hex, render_hex_line(line.bytes, line.valid_len));
            push_item(&mut ascii, render_ascii_line(line.bytes, line.valid_len));
        }
        i = i + 1;
    }
    Screen {
        address: Pane { area: address_area, lines: addresses },
        hex: Pane { area: hex_area, lines: hex },
        ascii: Pane { area: ascii_area, lines: ascii },
    }
}

/// Makes a frame on the surface `area`: parts it into the address pane, the
/// hex pane and the ascii pane, side by side, and fills them as `compose`
/// does. Each pane is as high as the surface.
pub fn ui(state: &mut ViewState, area: Rect, window: &[u8]) -> (screen: Screen)
    ensures
        final(state)@.wf(),
        final(state)@ == frame_end(old(state)@, area.height),
        screen@.address.area.y == area.y && screen@.address.area.height == area.height,
        screen@.hex.area.y == area.y && screen@.hex.area.height == area.height,
        screen@.ascii.area.y == area.y && screen@.ascii.area.height == area.height,
        screen@.address.lines == address_lines(old(state)@, frame_lines(old(state)@, area.height)),
        screen@.hex.lines == hex_lines(
            frame_start(old(state)@, area.height),
            window@,
            frame_lines(old(state)@, area.height),
        ),
        screen@.ascii.lines == ascii_lines(
            frame_start(old(state)@, area.height),
            window@,
            frame_lines(old(state)@, area.height),
        ),
{
    let widths = pane_widths();
    let columns = split_columns(area, &widths);
    compose(state, columns[0], columns[1], columns[2], window)
}

/// In a frame, no span is lit but in the row that holds the cursor, and
/// there it is the digit and the glyph of one byte: the byte at the cursor's
/// place in the line.
pub proof fn lemma_frame_highlight(m: ViewModel, window: Seq<u8>, i: nat, j: int, k: int)
    requires
        0 <= j < hex_line(m, window, i).len(),
        0 <= k < ascii_line(m, window, i).len(),
    ensures
        lit(hex_line(m, window, i)[j]) ==> m.cursor_row() == i && j == hex_pos(
            m.cursor_in_line() as int / 2,
            Some(m.cursor_in_line() as int),
        ) + 1 + m.cursor_in_line() % 2,
        lit(ascii_line(m, window, i)[k]) ==> m.cursor_row() == i && k == ascii_pos(
            m.cursor_in_line() as int / 2,
        ),
{
    let at = m.advanced_by(i);
    let bytes = at.next_bytes(window);
    let n = at.next_valid_len(window.len());
    lemma_hex_row_lit(bytes, n, row_cursor(m, i as int), j);
    lemma_ascii_row_lit(bytes, n, row_cursor_byte(m, i as int), k);
}

/// A frame leaves nothing behind that the next one reads: a second frame on
/// the same surface begins in the same state as the first, reads as many
/// lines, and ends in the same state.
pub proof fn lemma_frame_repeats(m: ViewModel, hex_height: u16)
    requires
        m.wf(),
    ensures
        frame_end(m, hex_height).wf(),
        frame_start(frame_end(m, hex_height), hex_height) == frame_start(m, hex_height),
        frame_lines(frame_end(m, hex_height), hex_height) == frame_lines(m, hex_height),
        frame_end(frame_end(m, hex_height), hex_height) == frame_end(m, hex_height),
        forall|count: nat|
            address_lines(frame_end(m, hex_height), count) == address_lines(m, count),
{
}

} // verus!
