//! Colours, styles and styled pieces of text: what a rendered row is made of.

use vstd::prelude::*;

verus! {

/// A terminal colour. These are the colours that the view uses.
#[derive(Clone, Copy, Debug, PartialEq, Eq, Structural)]
pub enum Color {
    Black,
    DarkGray,
    Green,
    LightCyan,
    Magenta,
    Yellow,
    White,
}

/// How a piece of text is drawn. `None` leaves the terminal's own colour.
#[derive(Clone, Copy, Debug, PartialEq, Eq, Structural)]
pub struct Style {
    /// The colour of the text.
    pub fg: Option<Color>,
    /// The colour behind the text.
    pub bg: Option<Color>,
}

impl Style {
    /// The style that sets no colour.
    pub open spec fn plain() -> Style {
        Style { fg: None, bg: None }
    }

    /// The style that sets the text colour alone.
    pub open spec fn of(color: Color) -> Style {
        Style { fg: Some(color), bg: None }
    }

    /// The style that sets no colour.
    pub fn new() -> (style: Style)
        ensures
            style == Style::plain(),
    {
        Style { fg: None, bg: None }
    }

    /// This style with the text colour `color`.
    pub fn fg(self, color: Color) -> (style: Style)
        ensures
            style == (Style { fg: Some(color), bg: self.bg }),
    {
        Style { fg: Some(color), bg: self.bg }
    }

    /// This style with the background colour `color`.
    pub fn bg(self, color: Color) -> (style: Style)
        ensures
            style == (Style { fg: self.fg, bg: Some(color) }),
    {
        Style { fg: self.fg, bg: Some(color) }
    }
}

/// A piece of text in one style.
#[derive(Clone, Debug, PartialEq, Eq)]
pub struct Span {
    /// The text.
    pub content: String,
    /// Its style.
    pub style: Style,
}

/// What a span is to a contract: its characters and its style.
pub struct SpanView {
    pub content: Seq<char>,
    pub style: Style,
}

impl View for Span {
    type V = SpanView;

    open spec fn view(&self) -> SpanView {
        SpanView { content: self.content@, style: self.style }
    }
}

impl DeepView for Span {
    type V = SpanView;

    open spec fn deep_view(&self) -> SpanView {
        self@
    }
}

/// Appends `item` to `items`. It says what that does to the deep view, which
/// the contracts of rows and panes speak of.
pub(crate) fn push_item<T: DeepView>(items: &mut Vec<T>, item: T)
    ensures
        final(items).deep_view() == old(items).deep_view().push(item.deep_view()),
{
    items.push(item);
}

/// `String::push` appends one character to the end of the string and leaves
/// the characters before it as they are.
pub assume_specification[ String::push ](s: &mut String, c: char)
    ensures
        final(s)@ == old(s)@.push(c),
;

} // verus!
