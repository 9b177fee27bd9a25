//! A paged hexadecimal view of a byte file.
//!
//! The view shows a window of 16-byte lines of the file in three panes: the
//! address of each line, its bytes as hex tokens and its bytes as ascii
//! glyphs. Each byte is coloured by its class, and a cursor that moves by
//! nibbles lights one hex digit and the glyph of the same byte.
//!
//! - [`byte_class`]: the classes of byte values.
//! - [`style`]: colours, styles and spans of text.
//! - [`hex`]: hexadecimal digits and address labels.
//! - [`render`]: the hex row and the ascii row of one line.
//! - [`state`]: the offset, the cursor and the reading of lines.
//! - [`layout`]: the columns of the screen.
//! - [`screen`]: one frame in its three panes.
//! - [`keys`]: the commands of the keyboard.
//!
//! The library does no input or output. The caller reads the bytes of the
//! window from the file, hands them to [`screen::ui`], and draws the frame
//! that comes back.
//!
//! Two contracts are taken on trust. `layout::split_columns` states what
//! ratatui's layout solver gives back, and the specification of
//! `String::push` in [`style`] states that it appends a character.
//! Everything else is proved.

pub mod byte_class;
pub mod hex;
pub mod keys;
pub mod layout;
pub mod render;
pub mod screen;
pub mod state;
pub mod style;
