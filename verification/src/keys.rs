//! The keyboard: which key asks for which move, and what a move does to the
//! state.

use crate::state::{ViewModel, ViewState};
use vstd::prelude::*;

verus! {

/// The number of bytes that one line up or down moves the window.
pub const LINE_STEP: i64 = 0x10;

/// The number of bytes that one page up or down moves the window.
pub const PAGE_STEP: i64 = 0x100;

/// What happened to a key.
#[derive(Clone, Copy, Debug, PartialEq, Eq, Structural)]
pub enum KeyKind {
    /// It went down.
    Press,
    /// It is held down and repeats.
    Repeat,
    /// It came up.
    Release,
}

/// A key of the keyboard.
#[derive(Clone, Copy, Debug, PartialEq, Eq, Structural)]
pub enum Key {
    /// A key that types a character.
    Char(char),
    Down,
    Up,
    Right,
    Left,
    PageDown,
    PageUp,
    /// Any other key.
    Other,
}

/// What the user asks of the view.
#[derive(Clone, Copy, Debug, PartialEq, Eq, Structural)]
pub enum Command {
    /// To end the view.
    Quit,
    /// To move the window one line down.
    LineDown,
    /// To move the window one line up.
    LineUp,
    /// To move the window one page down.
    PageDown,
    /// To move the window one page up.
    PageUp,
    /// To move the cursor one nibble to the right.
    CursorRight,
    /// To move the cursor one nibble to the left.
    CursorLeft,
}

/// The command of a key event. Only a key that goes down gives one: `q`
/// quits, the arrows up and down scroll by a line, the page keys by a page,
/// and the arrows left and right move the cursor.
pub open spec fn key_command(kind: KeyKind, key: Key) -> Option<Command> {
    if kind is Press {
        match key {
            Key::Char(c) => if c == 'q' { Some(Command::Quit) } else { None },
            Key::Down => Some(Command::LineDown),
            Key::Up => Some(Command::LineUp),
            Key::PageDown => Some(Command::PageDown),
            Key::PageUp => Some(Command::PageUp),
            Key::Right => Some(Command::CursorRight),
            Key::Left => Some(Command::CursorLeft),
            Key::Other => None,
        }
    } else {
        None
    }
}

/// The state after a command: a line is 16 bytes, a page is 256, and the
/// cursor moves by one nibble.
pub open spec fn after_command(m: ViewModel, command: Command) -> ViewModel {
    match command {
        Command::Quit => m,
        Command::LineDown => m.scrolled(LINE_STEP as int),
        Command::LineUp => m.scrolled(-LINE_STEP),
        Command::PageDown => m.scrolled(PAGE_STEP as int),
        Command::PageUp => m.scrolled(-PAGE_STEP),
        Command::CursorRight => m.cursor_moved(1),
        Command::CursorLeft => m.cursor_moved(-1),
    }
}

/// The state after a key event.
pub open spec fn after_key(m: ViewModel, kind: KeyKind, key: Key) -> ViewModel {
    match key_command(kind, key) {
        Some(command) => after_command(m, command),
        None => m,
    }
}

/// The command of a key event, if it has one.
pub fn command_for(kind: KeyKind, key: Key) -> (command: Option<Command>)
    ensures
        command == key_command(kind, key),
{
    match kind {
        KeyKind::Press => match key {
            Key::Char(c) => if c == 'q' {
                Some(Command::Quit)
            } else {
                None
            },
            Key::Down => Some(Command::LineDown),
            Key::Up => Some(Command::LineUp),
            Key::PageDown => Some(Command::PageDown),
            Key::PageUp => Some(Command::PageUp),
            Key::Right => Some(Command::CursorRight),
            Key::Left => Some(Command::CursorLeft),
            Key::Other => None,
        },
        _ => None,
    }
}

/// Carries out a command on the state, and says whether the view is to end.
pub fn apply(state: &mut ViewState, command: Command) -> (quit: bool)
    ensures
        final(state)@.wf(),
        final(state)@ == after_command(old(state)@, command),
        quit <==> command is Quit,
{
    proof {
        use_type_invariant(&*state);
    }
    match command {
        Command::Quit => {
            return true;
        },
        Command::LineDown => state.scroll(LINE_STEP),
        Command::LineUp => state.scroll(-LINE_STEP),
        Command::PageDown => state.scroll(PAGE_STEP),
        Command::PageUp => state.scroll(-PAGE_STEP),
        Command::CursorRight => state.move_cursor(1),
        Command::CursorLeft => state.move_cursor(-1),
    }
    false
}

/// Takes a key event: carries out its command, if it has one, and says
/// whether the view is to end.
pub fn handle_key(state: &mut ViewState, kind: KeyKind, key: Key) -> (quit: bool)
    ensures
        final(state)@.wf(),
        final(state)@ == after_key(old(state)@, kind, key),
        quit <==> key_command(kind, key) == Some(Command::Quit),
{
    match command_for(kind, key) {
        Some(command) => apply(state, command),
        None => {
            proof {
                use_type_invariant(&*state);
            }
            false
        },
    }
}

} // verus!
