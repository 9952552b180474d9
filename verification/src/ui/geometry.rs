//! Screen rectangles, as ratatui lays them out: a cell origin and a size.
use vstd::prelude::*;

verus! {

/// A rectangle of terminal cells: `x`, `y` is its top-left cell.
#[derive(Debug, Clone, Copy, PartialEq, Eq, Structural)]
pub struct Rect {
    pub x: u16,
    pub y: u16,
    pub width: u16,
    pub height: u16,
}

/// What `ratatui::layout::Rect::new` builds: the size is clamped so that the
/// rectangle does not run past the last addressable cell.
pub open spec fn clamped_rect(x: u16, y: u16, width: u16, height: u16) -> Rect {
    Rect {
        x,
        y,
        width: if width > u16::MAX - x { (u16::MAX - x) as u16 } else { width },
        height: if height > u16::MAX - y { (u16::MAX - y) as u16 } else { height },
    }
}

/// `ratatui::layout::Rect::new`, whose size is clamped to keep the rectangle
/// within the addressable cells (as its source shows: width at most
/// `u16::MAX - x`, height at most `u16::MAX - y`).
#[verifier::external_body]
pub(crate) fn rect_new(x: u16, y: u16, width: u16, height: u16) -> (r: Rect)
    ensures
        r == clamped_rect(x, y, width, height),
{
    let r = ratatui::layout::Rect::new(x, y, width, height);
    Rect { x: r.x, y: r.y, width: r.width, height: r.height }
}

} // verus!
