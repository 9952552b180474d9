//! The frame-level layout decisions: when the screen is too small to draw
//! the columns, where the "too small" notice goes, and where a toast sits.
use vstd::prelude::*;

use crate::ui::geometry::{clamped_rect, rect_new, Rect};

verus! {

/// Below this many columns the manager shows a notice instead of its layout.
pub const MIN_WIDTH: u16 = 70;

/// Below this many rows the manager shows a notice instead of its layout.
pub const MIN_HEIGHT: u16 = 15;

/// Whether `area` is too small for the three-column layout.
pub fn too_small(area: Rect) -> (r: bool)
    ensures
        r == (area.width < MIN_WIDTH || area.height < MIN_HEIGHT),
{
    area.width < MIN_WIDTH || area.height < MIN_HEIGHT
}

/// The length of the "window too small" notice.
pub const NOTICE_LEN: u16 = 16;

/// Where the "window too small" notice goes in `area`: one row in the middle,
/// as wide as the notice (or the area, if narrower), centered; none in an
/// area with no rows.
pub fn notice_rect(area: Rect) -> (r: Option<Rect>)
    requires
        area.x + area.width <= u16::MAX,
        area.y + area.height <= u16::MAX,
    ensures
        area.height == 0 ==> r is None,
        area.height > 0 ==> r == Some(
            {
                let w = if NOTICE_LEN < area.width {
                    NOTICE_LEN
                } else {
                    area.width
                };
                clamped_rect(
                    (area.x + (area.width - w) / 2) as u16,
                    (area.y + area.height / 2) as u16,
                    w,
                    1,
                )
            },
        ),
{
    if area.height == 0 {
        return None;
    }
    let width = if NOTICE_LEN < area.width {
        NOTICE_LEN
    } else {
        area.width
    };
    Some(rect_new(area.x + (area.width - width) / 2, area.y + area.height / 2, width, 1))
}

/// The row a toast takes: the full width of `area`, just above the footer
/// row that starts at `footer_y`.
pub fn toast_rect(area: Rect, footer_y: u16) -> (r: Rect)
    ensures
        r == clamped_rect(
            area.x,
            if footer_y > 0 {
                (footer_y - 1) as u16
            } else {
                0
            },
            area.width,
            1,
        ),
{
    rect_new(area.x, footer_y.saturating_sub(1), area.width, 1)
}

} // verus!
