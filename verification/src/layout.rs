//! The areas of the screen: the surface is parted into columns by ratatui's
//! layout solver.

use ratatui::layout::{Constraint, Direction, Layout};
use vstd::prelude::*;

verus! {

/// A rectangle of the terminal, in cells.
#[derive(Clone, Copy, Debug, PartialEq, Eq, Structural)]
pub struct Rect {
    /// The column of its left edge.
    pub x: u16,
    /// The row of its upper edge.
    pub y: u16,
    /// Its width.
    pub width: u16,
    /// Its height.
    pub height: u16,
}

/// Parts `area` into columns, one for each of `widths`, from left to right.
///
/// This is `ratatui::layout::Layout::split` on a layout of
/// `Direction::Horizontal` with one `Constraint::Length` for each width, and
/// with no margin. The solver places the columns, and nothing is claimed of
/// where: `x` and `width` are as it gives them. The contract holds what the
/// solver cannot change. `split` gives one rectangle for each constraint, and
/// in a horizontal layout it gives each the `y` and the `height` of the area.
#[verifier::external_body]
pub(crate) fn split_columns(area: Rect, widths: &Vec<u16>) -> (columns: Vec<Rect>)
    ensures
        columns@.len() == widths@.len(),
        forall|i: int|
            0 <= i < columns@.len() ==> (#[trigger] columns@[i]).y == area.y && columns@[i].height
                == area.height,
{
    let area =
        ratatui::layout::Rect { x: area.x, y: area.y, width: area.width, height: area.height };
    let parts = Layout::default()
        .direction(Direction::Horizontal)
        .constraints(widths.iter().map(|w| Constraint::Length(*w)))
        .split(area);
    parts.iter().map(|r| Rect { x: r.x, y: r.y, width: r.width, height: r.height }).collect()
}

} // verus!
