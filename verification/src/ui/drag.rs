//! Drag state machine data (the shared vocabulary between the keyboard move
//! mode and mouse dragging): what was picked up, where it would be dropped,
//! and what committing there would do.
use vstd::prelude::*;

use crate::model::window_ids;
use crate::tmux::ids::{PaneId, SessionId, WindowId};

verus! {

/// The window or pane picked up for a move. Sessions are not draggable.
#[derive(Debug, PartialEq, Eq)]
pub enum DragItem {
    Window(WindowId),
    Pane(PaneId),
}

/// Where the drag cursor currently rests.
#[derive(Debug, PartialEq, Eq)]
pub enum DropTarget {
    SessionRow(SessionId),
    /// Insert position within a session's window list: before `anchor`, or
    /// after it when `after` is true.
    WindowGap { anchor: WindowId, after: bool },
    WindowRow(WindowId),
    PaneRow(PaneId),
    NewSessionRow,
    NewWindowRow,
}

/// What committing at the current `DropTarget` would do. `NoOp` covers every
/// target that would change nothing or is not valid for the dragged item.
#[derive(Debug, PartialEq, Eq)]
pub enum PlannedAction {
    NoOp,
    MoveWindowToSession { window: WindowId, session: SessionId },
    ReorderWindow { window: WindowId, anchor: WindowId, after: bool },
    WindowToNewSession { window: WindowId },
    JoinPaneIntoWindow { pane: PaneId, window: WindowId },
    SplitPaneOntoPane { pane: PaneId, target: PaneId },
    PaneToNewWindowInSession { pane: PaneId, session: SessionId },
    PaneToNewSession { pane: PaneId },
}

/// A move in progress: the item that was picked up.
#[derive(Debug)]
pub struct DragState {
    pub item: DragItem,
}

pub enum DragItemView {
    Window(Seq<char>),
    Pane(Seq<char>),
}

pub enum DropTargetView {
    SessionRow(Seq<char>),
    WindowGap { anchor: Seq<char>, after: bool },
    WindowRow(Seq<char>),
    PaneRow(Seq<char>),
    NewSessionRow,
    NewWindowRow,
}

pub enum PlanView {
    NoOp,
    MoveWindowToSession { window: Seq<char>, session: Seq<char> },
    ReorderWindow { window: Seq<char>, anchor: Seq<char>, after: bool },
    WindowToNewSession { window: Seq<char> },
    JoinPaneIntoWindow { pane: Seq<char>, window: Seq<char> },
    SplitPaneOntoPane { pane: Seq<char>, target: Seq<char> },
    PaneToNewWindowInSession { pane: Seq<char>, session: Seq<char> },
    PaneToNewSession { pane: Seq<char> },
}

impl View for DragItem {
    type V = DragItemView;

    open spec fn view(&self) -> DragItemView {
        match self {
            DragItem::Window(w) => DragItemView::Window(w@),
            DragItem::Pane(p) => DragItemView::Pane(p@),
        }
    }
}

impl View for DropTarget {
    type V = DropTargetView;

    open spec fn view(&self) -> DropTargetView {
        match self {
            DropTarget::SessionRow(s) => DropTargetView::SessionRow(s@),
            DropTarget::WindowGap { anchor, after } => DropTargetView::WindowGap {
                anchor: anchor@,
                after: *after,
            },
            DropTarget::WindowRow(w) => DropTargetView::WindowRow(w@),
            DropTarget::PaneRow(p) => DropTargetView::PaneRow(p@),
            DropTarget::NewSessionRow => DropTargetView::NewSessionRow,
            DropTarget::NewWindowRow => DropTargetView::NewWindowRow,
        }
    }
}

impl View for PlannedAction {
    type V = PlanView;

    open spec fn view(&self) -> PlanView {
        match self {
            PlannedAction::NoOp => PlanView::NoOp,
            PlannedAction::MoveWindowToSession { window, session } =>
                PlanView::MoveWindowToSession { window: window@, session: session@ },
            PlannedAction::ReorderWindow { window, anchor, after } => PlanView::ReorderWindow {
                window: window@,
                anchor: anchor@,
                after: *after,
            },
            PlannedAction::WindowToNewSession { window } => PlanView::WindowToNewSession {
                window: window@,
            },
            PlannedAction::JoinPaneIntoWindow { pane, window } => PlanView::JoinPaneIntoWindow {
                pane: pane@,
                window: window@,
            },
            PlannedAction::SplitPaneOntoPane { pane, target } => PlanView::SplitPaneOntoPane {
                pane: pane@,
                target: target@,
            },
            PlannedAction::PaneToNewWindowInSession { pane, session } =>
                PlanView::PaneToNewWindowInSession { pane: pane@, session: session@ },
            PlannedAction::PaneToNewSession { pane } => PlanView::PaneToNewSession { pane: pane@ },
        }
    }
}

pub open spec fn view_window_list(list: Seq<WindowId>) -> Seq<Seq<char>> {
    Seq::new(list.len(), |i: int| list[i]@)
}

pub open spec fn opt_view_session(o: Option<&SessionId>) -> Option<Seq<char>> {
    match o {
        Some(s) => Some(s@),
        None => None,
    }
}

pub open spec fn opt_view_window(o: Option<&WindowId>) -> Option<Seq<char>> {
    match o {
        Some(w) => Some(w@),
        None => None,
    }
}

/// Whether dropping `dragged` at the gap `{anchor, after}` of `list` would
/// leave the order unchanged: the anchor is the dragged window itself, or the
/// dragged window already sits right before (gap before the anchor) or right
/// after (gap after the anchor) the anchor.
pub open spec fn gap_is_noop(list: Seq<Seq<char>>, dragged: Seq<char>, anchor: Seq<char>, after: bool) -> bool {
    if anchor == dragged {
        true
    } else {
        match list.index_of_first(anchor) {
            None => false,
            Some(p) => if after {
                p + 1 < list.len() && list[p + 1] == dragged
            } else {
                p > 0 && list[p - 1] == dragged
            },
        }
    }
}

/// The action that committing `item` at `target` would run.
pub open spec fn plan(
    item: DragItemView,
    target: DropTargetView,
    origin_session: Option<Seq<char>>,
    own_window: Option<Seq<char>>,
    list: Seq<Seq<char>>,
) -> PlanView {
    match (item, target) {
        (DragItemView::Window(w), DropTargetView::SessionRow(s)) => if origin_session == Some(s) {
            PlanView::NoOp
        } else {
            PlanView::MoveWindowToSession { window: w, session: s }
        },
        (DragItemView::Window(w), DropTargetView::WindowGap { anchor, after }) => if gap_is_noop(
            list,
            w,
            anchor,
            after,
        ) {
            PlanView::NoOp
        } else {
            PlanView::ReorderWindow { window: w, anchor, after }
        },
        (DragItemView::Window(w), DropTargetView::NewSessionRow) => PlanView::WindowToNewSession {
            window: w,
        },
        (DragItemView::Window(_), _) => PlanView::NoOp,
        (DragItemView::Pane(p), DropTargetView::WindowRow(w)) => if own_window == Some(w) {
            PlanView::NoOp
        } else {
            PlanView::JoinPaneIntoWindow { pane: p, window: w }
        },
        (DragItemView::Pane(p), DropTargetView::PaneRow(t)) => if t == p {
            PlanView::NoOp
        } else {
            PlanView::SplitPaneOntoPane { pane: p, target: t }
        },
        (DragItemView::Pane(p), DropTargetView::SessionRow(s)) =>
            PlanView::PaneToNewWindowInSession { pane: p, session: s },
        (DragItemView::Pane(p), DropTargetView::NewWindowRow) => match origin_session {
            Some(s) => PlanView::PaneToNewWindowInSession { pane: p, session: s },
            None => PlanView::NoOp,
        },
        (DragItemView::Pane(p), DropTargetView::NewSessionRow) => PlanView::PaneToNewSession {
            pane: p,
        },
        (DragItemView::Pane(_), DropTargetView::WindowGap { .. }) => PlanView::NoOp,
    }
}

impl Clone for DragItem {
    fn clone(&self) -> (c: Self)
        ensures
            c@ == self@,
    {
        match self {
            DragItem::Window(w) => DragItem::Window(w.clone()),
            DragItem::Pane(p) => DragItem::Pane(p.clone()),
        }
    }
}

impl Clone for DropTarget {
    fn clone(&self) -> (c: Self)
        ensures
            c@ == self@,
    {
        match self {
            DropTarget::SessionRow(s) => DropTarget::SessionRow(s.clone()),
            DropTarget::WindowGap { anchor, after } => DropTarget::WindowGap {
                anchor: anchor.clone(),
                after: *after,
            },
            DropTarget::WindowRow(w) => DropTarget::WindowRow(w.clone()),
            DropTarget::PaneRow(p) => DropTarget::PaneRow(p.clone()),
            DropTarget::NewSessionRow => DropTarget::NewSessionRow,
            DropTarget::NewWindowRow => DropTarget::NewWindowRow,
        }
    }
}

fn window_list_position(list: &[WindowId], id: &WindowId) -> (r: Option<usize>)
    ensures
        match r {
            Some(i) => view_window_list(list@).index_of_first(id@) == Some(i as int),
            None => view_window_list(list@).index_of_first(id@) is None,
        },
{
    let ghost ids = view_window_list(list@);
    let mut i: usize = 0;
    while i < list.len()
        invariant
            0 <= i <= list@.len(),
            ids == view_window_list(list@),
            forall|j: int| 0 <= j < i ==> ids[j] != id@,
        decreases list.len() - i,
    {
        if list[i].same(id) {
            proof {
                crate::model::lemma_first_index(ids, id@, i as int);
            }
            return Some(i);
        }
        i = i + 1;
    }
    proof {
        crate::model::lemma_no_index(ids, id@);
    }
    None
}

/// Whether dropping `dragged` at `WindowGap { anchor, after }` would actually
/// change anything, given the current order of the window list being viewed.
fn window_gap_is_noop(window_list: &[WindowId], dragged: &WindowId, anchor: &WindowId, after: bool) -> (r: bool)
    ensures
        r == gap_is_noop(view_window_list(window_list@), dragged@, anchor@, after),
{
    if anchor.same(dragged) {
        return true;
    }
    proof {
        crate::model::lemma_index_of_first(view_window_list(window_list@), anchor@);
    }
    let anchor_pos = match window_list_position(window_list, anchor) {
        Some(p) => p,
        None => return false,
    };
    assert(anchor_pos < window_list@.len());
    if after {
        anchor_pos < window_list.len() - 1 && window_list[anchor_pos + 1].same(dragged)
    } else {
        anchor_pos > 0 && window_list[anchor_pos - 1].same(dragged)
    }
}

/// Pure mapping from (dragged item, drop target, context) to the action that
/// would run on commit. `origin_session` is the session the item started in
/// (or, for a pane, the session in view); `own_window` is the window a dragged
/// pane lives in; `window_list` is the ordered ids of the windows in view.
pub fn plan_drop(
    item: &DragItem,
    target: &DropTarget,
    origin_session: Option<&SessionId>,
    own_window: Option<&WindowId>,
    window_list: &[WindowId],
) -> (r: PlannedAction)
    ensures
        r@ == plan(
            item@,
            target@,
            opt_view_session(origin_session),
            opt_view_window(own_window),
            view_window_list(window_list@),
        ),
{
    match (item, target) {
        (DragItem::Window(w), DropTarget::SessionRow(s)) => {
            let same = match origin_session {
                Some(o) => o.same(s),
                None => false,
            };
            if same {
                PlannedAction::NoOp
            } else {
                PlannedAction::MoveWindowToSession { window: w.clone(), session: s.clone() }
            }
        },
        (DragItem::Window(w), DropTarget::WindowGap { anchor, after }) => {
            if window_gap_is_noop(window_list, w, anchor, *after) {
                PlannedAction::NoOp
            } else {
                PlannedAction::ReorderWindow { window: w.clone(), anchor: anchor.clone(), after: *after }
            }
        },
        (DragItem::Window(w), DropTarget::NewSessionRow) => {
            PlannedAction::WindowToNewSession { window: w.clone() }
        },
        (DragItem::Window(_), _) => PlannedAction::NoOp,
        (DragItem::Pane(p), DropTarget::WindowRow(w)) => {
            let own = match own_window {
                Some(o) => o.same(w),
                None => false,
            };
            if own {
                PlannedAction::NoOp
            } else {
                PlannedAction::JoinPaneIntoWindow { pane: p.clone(), window: w.clone() }
            }
        },
        (DragItem::Pane(p), DropTarget::PaneRow(target_pane)) => {
            if target_pane.same(p) {
                PlannedAction::NoOp
            } else {
                PlannedAction::SplitPaneOntoPane { pane: p.clone(), target: target_pane.clone() }
            }
        },
        (DragItem::Pane(p), DropTarget::SessionRow(s)) => PlannedAction::PaneToNewWindowInSession {
            pane: p.clone(),
            session: s.clone(),
        },
        (DragItem::Pane(p), DropTarget::NewWindowRow) => match origin_session {
            Some(s) => PlannedAction::PaneToNewWindowInSession { pane: p.clone(), session: s.clone() },
            None => PlannedAction::NoOp,
        },
        (DragItem::Pane(p), DropTarget::NewSessionRow) => {
            PlannedAction::PaneToNewSession { pane: p.clone() }
        },
        (DragItem::Pane(_), DropTarget::WindowGap { .. }) => PlannedAction::NoOp,
    }
}

impl Clone for PlannedAction {
    fn clone(&self) -> (c: Self)
        ensures
            c@ == self@,
    {
        match self {
            PlannedAction::NoOp => PlannedAction::NoOp,
            PlannedAction::MoveWindowToSession { window, session } =>
                PlannedAction::MoveWindowToSession { window: window.clone(), session: session.clone() },
            PlannedAction::ReorderWindow { window, anchor, after } => PlannedAction::ReorderWindow {
                window: window.clone(),
                anchor: anchor.clone(),
                after: *after,
            },
            PlannedAction::WindowToNewSession { window } => PlannedAction::WindowToNewSession {
                window: window.clone(),
            },
            PlannedAction::JoinPaneIntoWindow { pane, window } => PlannedAction::JoinPaneIntoWindow {
                pane: pane.clone(),
                window: window.clone(),
            },
            PlannedAction::SplitPaneOntoPane { pane, target } => PlannedAction::SplitPaneOntoPane {
                pane: pane.clone(),
                target: target.clone(),
            },
            PlannedAction::PaneToNewWindowInSession { pane, session } =>
                PlannedAction::PaneToNewWindowInSession { pane: pane.clone(), session: session.clone() },
            PlannedAction::PaneToNewSession { pane } => PlannedAction::PaneToNewSession {
                pane: pane.clone(),
            },
        }
    }
}

/// Dropping an item back where it already is does nothing: a window on its own
/// session's row, a pane on its own window's row, a pane on itself.
pub proof fn law_drop_in_place_is_noop(
    w: Seq<char>,
    p: Seq<char>,
    session: Seq<char>,
    window: Seq<char>,
    list: Seq<Seq<char>>,
)
    ensures
        plan(DragItemView::Window(w), DropTargetView::SessionRow(session), Some(session), None, list) == PlanView::NoOp,
        plan(DragItemView::Pane(p), DropTargetView::WindowRow(window), None, Some(window), list) == PlanView::NoOp,
        forall|o: Option<Seq<char>>, ow: Option<Seq<char>>|
            plan(DragItemView::Pane(p), DropTargetView::PaneRow(p), o, ow, list) == PlanView::NoOp,
{
}

/// The two gaps that bracket a window's own position in the list it is shown
/// in (the gap before its successor and the gap after its predecessor), and the
/// gaps anchored on the window itself, leave the order unchanged.
pub proof fn law_gap_beside_own_position_is_noop(list: Seq<Seq<char>>, k: int, after: bool, o: Option<Seq<char>>, ow: Option<Seq<char>>)
    requires
        list.no_duplicates(),
        0 <= k < list.len(),
    ensures
        plan(DragItemView::Window(list[k]), DropTargetView::WindowGap { anchor: list[k], after }, o, ow, list) == PlanView::NoOp,
        k + 1 < list.len() ==> plan(
            DragItemView::Window(list[k]),
            DropTargetView::WindowGap { anchor: list[k + 1], after: false },
            o,
            ow,
            list,
        ) == PlanView::NoOp,
        k > 0 ==> plan(
            DragItemView::Window(list[k]),
            DropTargetView::WindowGap { anchor: list[k - 1], after: true },
            o,
            ow,
            list,
        ) == PlanView::NoOp,
{
    if k + 1 < list.len() {
        crate::model::lemma_first_index(list, list[k + 1], k + 1);
    }
    if k > 0 {
        crate::model::lemma_first_index(list, list[k - 1], k - 1);
    }
}

/// A window can only land on a session row, a window gap or the new-session
/// row; a pane never lands on a window gap.
pub proof fn law_invalid_targets_are_noop(w: Seq<char>, p: Seq<char>, t: DropTargetView, o: Option<Seq<char>>, ow: Option<Seq<char>>, list: Seq<Seq<char>>)
    ensures
        (t is WindowRow || t is PaneRow || t is NewWindowRow) ==> plan(DragItemView::Window(w), t, o, ow, list) == PlanView::NoOp,
        t is WindowGap ==> plan(DragItemView::Pane(p), t, o, ow, list) == PlanView::NoOp,
{
}

/// A drop acts on the target it lands on, with the dragged item:
/// - a pane dropped on a session's row breaks out into a new window of that
///   session, wherever it came from;
/// - a pane on a window's row joins that window (unless it is its own), on
///   another pane splits that pane (unless it is itself), on the new-window
///   row breaks out into the session in view (nothing when none is), and on
///   the new-session row moves into a new session;
/// - a window on a session's row moves to that session (unless it is its
///   own), on the new-session row moves into a new session, and on a gap
///   either does nothing or moves next to that gap's window, on that side;
///   in a list that does not hold the window, every gap but its own moves it.
pub proof fn law_drop_acts_on_its_target(
    w: Seq<char>,
    p: Seq<char>,
    s: Seq<char>,
    x: Seq<char>,
    anchor: Seq<char>,
    after: bool,
    o: Option<Seq<char>>,
    ow: Option<Seq<char>>,
    list: Seq<Seq<char>>,
)
    ensures
        plan(DragItemView::Pane(p), DropTargetView::SessionRow(s), o, ow, list)
            == (PlanView::PaneToNewWindowInSession { pane: p, session: s }),
        plan(DragItemView::Pane(p), DropTargetView::WindowRow(x), o, ow, list) == (if ow == Some(x) {
            PlanView::NoOp
        } else {
            PlanView::JoinPaneIntoWindow { pane: p, window: x }
        }),
        plan(DragItemView::Pane(p), DropTargetView::PaneRow(x), o, ow, list) == (if x == p {
            PlanView::NoOp
        } else {
            PlanView::SplitPaneOntoPane { pane: p, target: x }
        }),
        plan(DragItemView::Pane(p), DropTargetView::NewWindowRow, o, ow, list) == (match o {
            Some(v) => PlanView::PaneToNewWindowInSession { pane: p, session: v },
            None => PlanView::NoOp,
        }),
        plan(DragItemView::Pane(p), DropTargetView::NewSessionRow, o, ow, list)
            == (PlanView::PaneToNewSession { pane: p }),
        plan(DragItemView::Window(w), DropTargetView::SessionRow(s), o, ow, list) == (if o == Some(s) {
            PlanView::NoOp
        } else {
            PlanView::MoveWindowToSession { window: w, session: s }
        }),
        plan(DragItemView::Window(w), DropTargetView::NewSessionRow, o, ow, list)
            == (PlanView::WindowToNewSession { window: w }),
        plan(DragItemView::Window(w), DropTargetView::WindowGap { anchor, after }, o, ow, list) is NoOp
            || plan(DragItemView::Window(w), DropTargetView::WindowGap { anchor, after }, o, ow, list)
            == (PlanView::ReorderWindow { window: w, anchor, after }),
        !list.contains(w) && anchor != w ==> plan(
            DragItemView::Window(w),
            DropTargetView::WindowGap { anchor, after },
            o,
            ow,
            list,
        ) == (PlanView::ReorderWindow { window: w, anchor, after }),
{
    crate::model::lemma_index_of_first(list, anchor);
    if !list.contains(w) && anchor != w {
        if list.index_of_first(anchor) is Some {
            let i = list.index_of_first(anchor)->0;
            if i + 1 < list.len() {
                assert(list[i + 1] != w);
            }
            if i > 0 {
                assert(list[i - 1] != w);
            }
        }
    }
}

} // verus!
