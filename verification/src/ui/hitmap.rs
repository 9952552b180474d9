//! Mouse hit-map: every rendered row registers its rectangle and the entity
//! it shows; hit-testing is a linear scan for the first rectangle that holds
//! the pointer.
use vstd::prelude::*;

use crate::tmux::ids::{PaneId, SessionId, WindowId};
use crate::ui::drag::{DropTarget, DropTargetView};
use crate::ui::geometry::Rect;

verus! {

#[derive(Debug, PartialEq, Eq)]
pub enum ClickTarget {
    Session(SessionId),
    Window(WindowId),
    Pane(PaneId),
    NewSessionRow,
    NewWindowRow,
    /// "+ split pane" pseudo-row: click-to-create only, never a drop target.
    NewSplitRow,
    /// A window-reorder insertion line, present while a window is dragged.
    WindowGap { anchor: WindowId, after: bool },
}

pub enum ClickTargetView {
    Session(Seq<char>),
    Window(Seq<char>),
    Pane(Seq<char>),
    NewSessionRow,
    NewWindowRow,
    NewSplitRow,
    WindowGap { anchor: Seq<char>, after: bool },
}

impl View for ClickTarget {
    type V = ClickTargetView;

    open spec fn view(&self) -> ClickTargetView {
        match self {
            ClickTarget::Session(id) => ClickTargetView::Session(id@),
            ClickTarget::Window(id) => ClickTargetView::Window(id@),
            ClickTarget::Pane(id) => ClickTargetView::Pane(id@),
            ClickTarget::NewSessionRow => ClickTargetView::NewSessionRow,
            ClickTarget::NewWindowRow => ClickTargetView::NewWindowRow,
            ClickTarget::NewSplitRow => ClickTargetView::NewSplitRow,
            ClickTarget::WindowGap { anchor, after } => ClickTargetView::WindowGap {
                anchor: anchor@,
                after: *after,
            },
        }
    }
}

impl Clone for ClickTarget {
    fn clone(&self) -> (c: Self)
        ensures
            c@ == self@,
    {
        match self {
            ClickTarget::Session(id) => ClickTarget::Session(id.clone()),
            ClickTarget::Window(id) => ClickTarget::Window(id.clone()),
            ClickTarget::Pane(id) => ClickTarget::Pane(id.clone()),
            ClickTarget::NewSessionRow => ClickTarget::NewSessionRow,
            ClickTarget::NewWindowRow => ClickTarget::NewWindowRow,
            ClickTarget::NewSplitRow => ClickTarget::NewSplitRow,
            ClickTarget::WindowGap { anchor, after } => ClickTarget::WindowGap {
                anchor: anchor.clone(),
                after: *after,
            },
        }
    }
}

/// The drop target a clicked row stands for; the split pseudo-row is none.
pub open spec fn drop_target_of(t: ClickTargetView) -> Option<DropTargetView> {
    match t {
        ClickTargetView::Session(id) => Some(DropTargetView::SessionRow(id)),
        ClickTargetView::Window(id) => Some(DropTargetView::WindowRow(id)),
        ClickTargetView::Pane(id) => Some(DropTargetView::PaneRow(id)),
        ClickTargetView::NewSessionRow => Some(DropTargetView::NewSessionRow),
        ClickTargetView::NewWindowRow => Some(DropTargetView::NewWindowRow),
        ClickTargetView::WindowGap { anchor, after } => Some(
            DropTargetView::WindowGap { anchor, after },
        ),
        ClickTargetView::NewSplitRow => None,
    }
}

impl ClickTarget {
    pub fn as_drop_target(&self) -> (r: Option<DropTarget>)
        ensures
            match r {
                Some(t) => drop_target_of(self@) == Some(t@),
                None => drop_target_of(self@) is None,
            },
    {
        match self {
            ClickTarget::Session(id) => Some(DropTarget::SessionRow(id.clone())),
            ClickTarget::Window(id) => Some(DropTarget::WindowRow(id.clone())),
            ClickTarget::Pane(id) => Some(DropTarget::PaneRow(id.clone())),
            ClickTarget::NewSessionRow => Some(DropTarget::NewSessionRow),
            ClickTarget::NewWindowRow => Some(DropTarget::NewWindowRow),
            ClickTarget::WindowGap { anchor, after } => Some(
                DropTarget::WindowGap { anchor: anchor.clone(), after: *after },
            ),
            ClickTarget::NewSplitRow => None,
        }
    }
}

/// The far edge of a rectangle along one axis, stopped at the last cell.
pub open spec fn edge(start: u16, len: u16) -> int {
    if start + len > u16::MAX {
        u16::MAX as int
    } else {
        start + len
    }
}

pub open spec fn contains_point(r: Rect, x: u16, y: u16) -> bool {
    &&& r.x <= x < edge(r.x, r.width)
    &&& r.y <= y < edge(r.y, r.height)
}

/// Whether the cell `x`, `y` lies in `rect` (its far edges excluded).
pub fn rect_contains(rect: &Rect, x: u16, y: u16) -> (b: bool)
    ensures
        b == contains_point(*rect, x, y),
{
    x >= rect.x && x < rect.x.saturating_add(rect.width) && y >= rect.y && y
        < rect.y.saturating_add(rect.height)
}

pub type HitMap = Vec<(Rect, ClickTarget)>;

/// The first entry of `map` whose rectangle holds `x`, `y`.
pub open spec fn first_hit(map: Seq<(Rect, ClickTarget)>, x: u16, y: u16) -> Option<int> {
    if exists|k: int| 0 <= k < map.len() && contains_point(map[k].0, x, y) {
        Some(
            choose|k: int|
                0 <= k < map.len() && contains_point(map[k].0, x, y) && forall|j: int|
                    0 <= j < k ==> !contains_point(#[trigger] map[j].0, x, y),
        )
    } else {
        None
    }
}

/// Linear scan: the target of the first rectangle that holds the pointer.
pub fn hit_test(map: &HitMap, x: u16, y: u16) -> (r: Option<ClickTarget>)
    ensures
        match first_hit(map@, x, y) {
            Some(k) => r matches Some(t) && t@ == map@[k].1@,
            None => r is None,
        },
{
    let mut i: usize = 0;
    while i < map.len()
        invariant
            0 <= i <= map@.len(),
            forall|j: int| 0 <= j < i ==> !contains_point(#[trigger] map@[j].0, x, y),
        decreases map.len() - i,
    {
        if rect_contains(&map[i].0, x, y) {
            let ghost k = choose|k: int|
                0 <= k < map@.len() && contains_point(map@[k].0, x, y) && forall|j: int|
                    0 <= j < k ==> !contains_point(#[trigger] map@[j].0, x, y);
            assert(k == i) by {
                if k < i {
                    assert(!contains_point(map@[k].0, x, y));
                }
                if k > i {
                    assert(!contains_point(map@[i as int].0, x, y));
                }
            }
            return Some(map[i].1.clone());
        }
        i = i + 1;
    }
    None
}

} // verus!
