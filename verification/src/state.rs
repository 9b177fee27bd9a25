//! The navigation state of the view: the length of the file, the offset of
//! the window, the cursor, the number of visible lines and the place of the
//! next read.

use vstd::prelude::*;

verus! {

/// The longest file that a view can hold: every nibble of it has an address
/// in `u64`.
pub const MAX_FILE_LEN: u64 = 0x7fff_ffff_ffff_ffff;

/// The number of bytes in a line.
pub const LINE_LEN: u64 = 16;

/// The number of nibbles in a line.
pub const LINE_NIBBLES: u64 = 32;

/// `x`, or the nearest bound where it lies outside `lo..=hi`.
pub open spec fn clamp(x: int, lo: int, hi: int) -> int {
    if x < lo {
        lo
    } else if x > hi {
        hi
    } else {
        x
    }
}

/// The smaller of two numbers.
pub open spec fn least(a: int, b: int) -> int {
    if a <= b {
        a
    } else {
        b
    }
}

/// The number of lines that hold `bytes` bytes: the last one may be short.
pub open spec fn lines_needed(bytes: nat) -> nat {
    (bytes + LINE_LEN - 1) as nat / LINE_LEN as nat
}

/// What a view state is to a contract.
pub struct ViewModel {
    /// The length of the file, in bytes.
    pub len: nat,
    /// The address of the first byte of the window.
    pub offset: nat,
    /// The address of the nibble under the cursor: two to a byte, the high
    /// one first.
    pub cursor: nat,
    /// The number of lines that the surface showed when it was last measured.
    pub rows: nat,
    /// The address of the first byte of the next line to be read.
    pub read_pos: nat,
}

impl ViewModel {
    /// The bound of the cursor: it stays below two nibbles for each byte, and
    /// below two in an empty file.
    pub open spec fn cursor_limit(self) -> nat {
        if self.len == 0 {
            2
        } else {
            2 * self.len
        }
    }

    /// The state is consistent: the window starts inside the file or at its
    /// end, the cursor is on a nibble of the file, and reading has not gone
    /// back before the window.
    pub open spec fn wf(self) -> bool {
        &&& self.len <= MAX_FILE_LEN
        &&& self.offset <= self.len
        &&& self.cursor < self.cursor_limit()
        &&& self.rows <= usize::MAX
        &&& self.offset <= self.read_pos <= u64::MAX
    }

    /// The number of bytes from the window's first byte to the end of the
    /// file.
    pub open spec fn remaining(self) -> nat {
        (self.len - self.offset) as nat
    }

    /// The largest offset that scrolling reaches: the one that shows the last
    /// bytes of the file in the last visible line.
    pub open spec fn max_offset(self) -> nat {
        if self.len >= LINE_LEN * self.rows {
            (self.len - LINE_LEN * self.rows) as nat
        } else {
            0
        }
    }

    /// The state after a scroll by `delta` bytes: the offset moves by `delta`
    /// and stops at the bounds, and reading starts again at the new offset.
    pub open spec fn scrolled(self, delta: int) -> ViewModel {
        let offset = clamp(self.offset + delta, 0, self.max_offset() as int) as nat;
        ViewModel { offset, read_pos: offset, ..self }
    }

    /// The state after a move of the cursor by `delta` nibbles: the cursor
    /// moves by `delta` and stops at the first and the last nibble.
    pub open spec fn cursor_moved(self, delta: int) -> ViewModel {
        ViewModel {
            cursor: clamp(self.cursor + delta, 0, self.cursor_limit() - 1) as nat,
            ..self
        }
    }

    /// The state when a frame begins: reading starts at the offset.
    pub open spec fn rewound(self) -> ViewModel {
        ViewModel { read_pos: self.offset, ..self }
    }

    /// The number of lines to read for a window of `rows` lines: those that
    /// hold the rest of the file, and no more than the window has lines.
    pub open spec fn lines_to_read(self, rows: nat) -> nat {
        least(lines_needed(self.remaining()) as int, rows as int) as nat
    }

    /// The index in the window buffer of the next byte to be read.
    pub open spec fn read_index(self) -> nat {
        (self.read_pos - self.offset) as nat
    }

    /// The number of bytes that can be read at the read position from a
    /// window buffer of `window_len` bytes: those that the file still has,
    /// as far as the buffer holds them.
    pub open spec fn available(self, window_len: nat) -> nat {
        let in_file = if self.read_pos < self.len { self.len - self.read_pos } else { 0 };
        let in_window = if self.read_index() < window_len {
            window_len - self.read_index()
        } else {
            0
        };
        least(in_file, in_window) as nat
    }

    /// The number of valid bytes of the next line.
    pub open spec fn next_valid_len(self, window_len: nat) -> nat {
        least(LINE_LEN as int, self.available(window_len) as int) as nat
    }

    /// The 16 bytes of the next line, read from the window buffer `window`:
    /// the valid bytes, then zeros.
    pub open spec fn next_bytes(self, window: Seq<u8>) -> Seq<u8> {
        Seq::new(
            LINE_LEN as nat,
            |j: int|
                if j < self.next_valid_len(window.len()) {
                    window[self.read_index() + j]
                } else {
                    0u8
                },
        )
    }

    /// The state after `count` lines were read: the read position is `count`
    /// lines on. It stops at the last address.
    pub open spec fn advanced_by(self, count: nat) -> ViewModel {
        ViewModel {
            read_pos: least(self.read_pos + LINE_LEN * count, u64::MAX as int) as nat,
            ..self
        }
    }

    /// The state after one line was read.
    pub open spec fn advanced(self) -> ViewModel {
        self.advanced_by(1)
    }

    /// The row of the window that holds the cursor, counted from 0. It is
    /// negative where the cursor is above the window.
    pub open spec fn cursor_row(self) -> int {
        (self.cursor - 2 * self.offset) / (LINE_NIBBLES as int)
    }

    /// The place of the cursor in its line, in nibbles.
    pub open spec fn cursor_in_line(self) -> nat {
        self.cursor % (LINE_NIBBLES as nat)
    }
}

/// One line of the file: up to 16 bytes.
#[derive(Clone, Copy, Debug)]
pub struct Line {
    /// The bytes of the line. Those from `valid_len` on are zero and stand
    /// for nothing in the file.
    pub bytes: [u8; 16],
    /// The number of bytes that the file holds of this line.
    pub valid_len: usize,
}

impl Line {
    /// The line has at most 16 valid bytes, and zeros after them.
    pub open spec fn wf(self) -> bool {
        &&& self.valid_len <= LINE_LEN
        &&& forall|j: int| self.valid_len <= j < LINE_LEN ==> self.bytes@[j] == 0
    }
}

/// The navigation state of a view on a file.
#[derive(Debug)]
pub struct ViewState {
    len: u64,
    offset: u64,
    cursor: u64,
    lines_displayed: usize,
    read_pos: u64,
}

impl View for ViewState {
    type V = ViewModel;

    closed spec fn view(&self) -> ViewModel {
        ViewModel {
            len: self.len as nat,
            offset: self.offset as nat,
            cursor: self.cursor as nat,
            rows: self.lines_displayed as nat,
            read_pos: self.read_pos as nat,
        }
    }
}

impl ViewState {
    /// Every state is consistent.
    #[verifier::type_invariant]
    pub open spec fn inv(self) -> bool {
        self@.wf()
    }

    /// A view on a file of `len` bytes, with the window and the cursor at its
    /// start. A file longer than `MAX_FILE_LEN` has no view.
    pub fn new(len: u64) -> (state: Option<ViewState>)
        ensures
            state is Some <==> len <= MAX_FILE_LEN,
            state matches Some(s) ==> s@.wf() && s@ == (ViewModel {
                len: len as nat,
                offset: 0,
                cursor: 0,
                rows: 0,
                read_pos: 0,
            }),
    {
        if len <= MAX_FILE_LEN {
            Some(ViewState { len, offset: 0, cursor: 0, lines_displayed: 0, read_pos: 0 })
        } else {
            None
        }
    }

    /// The length of the file.
    pub fn len(&self) -> (len: u64)
        ensures
            len == self@.len,
            self@.wf(),
    {
        proof {
            use_type_invariant(self);
        }
        self.len
    }

    /// The address of the first byte of the window.
    pub fn offset(&self) -> (offset: u64)
        ensures
            offset == self@.offset,
            self@.wf(),
    {
        proof {
            use_type_invariant(self);
        }
        self.offset
    }

    /// The address of the nibble under the cursor.
    pub fn cursor(&self) -> (cursor: u64)
        ensures
            cursor == self@.cursor,
            self@.wf(),
    {
        proof {
            use_type_invariant(self);
        }
        self.cursor
    }

    /// The number of lines that the surface showed when it was last measured.
    pub fn visible_line_count(&self) -> (rows: usize)
        ensures
            rows == self@.rows,
            self@.wf(),
    {
        proof {
            use_type_invariant(self);
        }
        self.lines_displayed
    }

    /// Records the number of lines that the surface shows.
    pub fn set_visible_line_count(&mut self, rows: usize)
        ensures
            final(self)@.wf(),
            final(self)@ == (ViewModel { rows: rows as nat, ..old(self)@ }),
    {
        proof {
            use_type_invariant(&*self);
        }
        self.lines_displayed = rows;
    }

    /// The number of bytes from the window's first byte to the end of the
    /// file.
    pub fn remaining_bytes(&self) -> (bytes: u64)
        ensures
            bytes == self@.remaining(),
            self@.wf(),
    {
        proof {
            use_type_invariant(self);
        }
        self.len - self.offset
    }

    /// The number of lines to read for a window of `rows` lines.
    pub fn lines_to_read(&self, rows: u16) -> (lines: u64)
        ensures
            lines == self@.lines_to_read(rows as nat),
            self@.wf(),
    {
        let remaining = self.remaining_bytes();
        let mut lines: u64 = remaining / LINE_LEN;
        if remaining % LINE_LEN != 0 {
            lines = lines + 1;
        }
        if (rows as u64) < lines {
            lines = rows as u64;
        }
        lines
    }

    /// Moves the window by `delta` bytes. The offset stops at 0 and at the
    /// offset that shows the end of the file in the last visible line.
    pub fn scroll(&mut self, delta: i64)
        ensures
            final(self)@.wf(),
            final(self)@ == old(self)@.scrolled(delta as int),
    {
        proof {
            use_type_invariant(&*self);
        }
        let span: u128 = LINE_LEN as u128 * self.lines_displayed as u128;
        let max_offset: u64 = if self.len as u128 >= span {
            (self.len as u128 - span) as u64
        } else {
            0
        };
        let target: i128 = self.offset as i128 + delta as i128;
        let offset: u64 = if target < 0 {
            0
        } else if target > max_offset as i128 {
            max_offset
        } else {
            target as u64
        };
        *self = ViewState {
            len: self.len,
            offset,
            cursor: self.cursor,
            lines_displayed: self.lines_displayed,
            read_pos: offset,
        };
    }

    /// Moves the cursor by `delta` nibbles. The cursor stops at the first and
    /// at the last nibble of the file.
    pub fn move_cursor(&mut self, delta: i64)
        ensures
            final(self)@.wf(),
            final(self)@ == old(self)@.cursor_moved(delta as int),
    {
        proof {
            use_type_invariant(&*self);
        }
        let last: u64 = if self.len == 0 { 1 } else { 2 * self.len - 1 };
        let target: i128 = self.cursor as i128 + delta as i128;
        let cursor: u64 = if target < 0 {
            0
        } else if target > last as i128 {
            last
        } else {
            target as u64
        };
        self.cursor = cursor;
    }

    /// Begins a frame: the next line to be read is the first of the window.
    pub fn reset(&mut self)
        ensures
            final(self)@.wf(),
            final(self)@ == old(self)@.rewound(),
    {
        proof {
            use_type_invariant(&*self);
        }
        self.read_pos = self.offset;
    }

    /// Reads the next line from `window`, the buffer that holds the bytes of
    /// the file from the window's offset on, and moves the read position one
    /// line on. The line has 16 valid bytes, or as many as the file and the
    /// buffer still hold; the bytes after them are zero.
    pub fn next_line(&mut self, window: &[u8]) -> (line: Line)
        ensures
            final(self)@.wf(),
            final(self)@ == old(self)@.advanced(),
            line.wf(),
            line.valid_len == old(self)@.next_valid_len(window@.len()),
            line.bytes@ == old(self)@.next_bytes(window@),
    {
        proof {
            use_type_invariant(&*self);
        }
        let start: u64 = self.read_pos - self.offset;
        let in_file: u64 = if self.read_pos < self.len { self.len - self.read_pos } else { 0 };
        let window_len: u64 = window.len() as u64;
        let in_window: u64 = if start < window_len { window_len - start } else { 0 };
        let available: u64 = if in_file <= in_window { in_file } else { in_window };
        let valid_len: usize = if available < LINE_LEN { available as usize } else { LINE_LEN as usize };
        let base: usize = if valid_len > 0 { start as usize } else { 0 };
        let mut bytes: [u8; 16] = [0u8; 16];
        let mut j: usize = 0;
        while j < valid_len
            invariant
                j <= valid_len <= 16,
                valid_len > 0 ==> base == start && base + valid_len <= window.len(),
                forall|k: int| 0 <= k < j ==> bytes@[k] == window@[start + k],
                forall|k: int| j <= k < 16 ==> bytes@[k] == 0,
            decreases valid_len - j,
        {
            bytes[j] = window[base + j];
            j = j + 1;
        }
        self.read_pos = self.read_pos.saturating_add(LINE_LEN);
        let line = Line { bytes, valid_len };
        line
    }

    /// The row of the window that holds the cursor, or `None` where the
    /// cursor is above the window.
    pub fn cursor_row(&self) -> (row: Option<u64>)
        ensures
            self@.wf(),
            row is None <==> self@.cursor_row() < 0,
            row matches Some(i) ==> i == self@.cursor_row(),
    {
        proof {
            use_type_invariant(self);
        }
        let first: u64 = 2 * self.offset;
        if self.cursor >= first {
            Some((self.cursor - first) / LINE_NIBBLES)
        } else {
            None
        }
    }

    /// The place of the cursor in its line, in nibbles.
    pub fn cursor_in_line(&self) -> (nibble: usize)
        ensures
            self@.wf(),
            nibble == self@.cursor_in_line(),
            nibble < LINE_NIBBLES,
    {
        proof {
            use_type_invariant(self);
        }
        (self.cursor % LINE_NIBBLES) as usize
    }
}

/// Reading `count` lines and then one more is reading `count + 1` lines, and
/// reading none changes nothing.
pub proof fn lemma_advanced_by(m: ViewModel, count: nat)
    requires
        m.read_pos <= u64::MAX,
    ensures
        m.advanced_by(0) == m,
        m.advanced_by(count).advanced() == m.advanced_by(count + 1),
{
}

/// The number of lines that hold `bytes` bytes is `bytes / 16`, rounded up.
pub proof fn lemma_lines_needed(bytes: nat)
    ensures
        LINE_LEN * lines_needed(bytes) >= bytes,
        bytes > 0 ==> LINE_LEN * (lines_needed(bytes) - 1) < bytes,
        bytes == 0 <==> lines_needed(bytes) == 0,
        bytes % (LINE_LEN as nat) == 0 ==> LINE_LEN * lines_needed(bytes) == bytes,
{
}

/// Reading line after line from the offset gives `lines_needed(remaining)`
/// lines with bytes in them, and after them only empty ones. Each has 16
/// bytes, but for the last: it has what is left over, `remaining % 16` bytes,
/// or 16 if nothing is. `index` counts the lines from 0. This holds of line
/// `index` where the window buffer holds the bytes of the file up to the end
/// of that line: 16 bytes for it and for each line before it, or the rest of
/// the file.
pub proof fn lemma_lines_until_end(m: ViewModel, window_len: nat, index: nat)
    requires
        m.wf(),
        m.read_pos == m.offset,
        window_len >= least(m.remaining() as int, LINE_LEN * (index + 1)),
    ensures
        index + 1 < lines_needed(m.remaining()) ==> m.advanced_by(index).next_valid_len(window_len)
            == LINE_LEN,
        index + 1 == lines_needed(m.remaining()) ==> m.advanced_by(index).next_valid_len(
            window_len,
        ) == if m.remaining() % (LINE_LEN as nat) == 0 {
            LINE_LEN as nat
        } else {
            m.remaining() % (LINE_LEN as nat)
        },
        index >= lines_needed(m.remaining()) ==> m.advanced_by(index).next_valid_len(window_len)
            == 0,
        m.advanced_by(index).next_valid_len(window_len) == clamp(
            m.remaining() - LINE_LEN * index,
            0,
            LINE_LEN as int,
        ),
{
}

/// Where the offset is on a line boundary, the cursor's place in its line
/// is its distance from the first nibble of the row that holds it: the digit
/// that is lit is the one under the cursor.
pub proof fn lemma_cursor_in_line(m: ViewModel, row: nat)
    requires
        m.offset % (LINE_LEN as nat) == 0,
        m.cursor_row() == row,
    ensures
        m.cursor_in_line() == m.cursor - 2 * (m.offset + LINE_LEN * row),
        m.offset + LINE_LEN * row + m.cursor_in_line() / 2 == m.cursor / 2,
        m.cursor_in_line() % 2 == m.cursor % 2,
{
}

/// Only the row that holds the cursor's byte is the cursor's row: a cursor
/// above the window, or below the rows shown, is on none of them.
pub proof fn lemma_cursor_row(m: ViewModel, row: nat)
    ensures
        m.cursor_row() == row <==> 2 * (m.offset + LINE_LEN * row) <= m.cursor < 2 * (m.offset
            + LINE_LEN * (row + 1)),
{
}

/// A scroll by whole lines keeps the offset on a line boundary, from 0 up to
/// the last such offset below the bound.
pub proof fn lemma_scroll_keeps_boundary(m: ViewModel, delta: int)
    requires
        m.wf(),
        m.offset % (LINE_LEN as nat) == 0,
        delta % (LINE_LEN as int) == 0,
        m.offset + delta <= m.max_offset(),
    ensures
        m.scrolled(delta).offset % (LINE_LEN as nat) == 0,
{
}

/// In a frame that begins at the offset, the valid bytes of line `index` are
/// those of the window buffer from `16 * index` on: byte `j` of the line is
/// the byte at the address `offset + 16 * index + j` of the file.
pub proof fn lemma_line_bytes(m: ViewModel, window: Seq<u8>, index: nat, j: int)
    requires
        m.wf(),
        m.read_pos == m.offset,
        0 <= j < m.advanced_by(index).next_valid_len(window.len()),
    ensures
        m.advanced_by(index).next_bytes(window)[j] == window[LINE_LEN * index + j],
        LINE_LEN * index + j < window.len(),
        m.offset + LINE_LEN * index + j < m.len,
{
}

} // verus!
