//! The rows of the three Miller columns, in the order they are drawn, with
//! the height each takes and the entity a click on it stands for; and the
//! hit-map entries that the visible part of a column registers.
use vstd::prelude::*;

use crate::model::{view_windows, PaneView, SessionView, WindowView};
use crate::tmux::ids::WindowId;
use crate::ui::app::App;
use crate::ui::columns::clamp_scroll;
use crate::ui::geometry::{clamped_rect, rect_new, Rect};
use crate::ui::hitmap::{ClickTarget, ClickTargetView, HitMap};

verus! {

/// One drawn row: how many lines it takes and what a click on it means.
pub struct RowSpec {
    pub height: u16,
    pub target: ClickTarget,
}

pub struct RowView {
    pub height: u16,
    pub target: ClickTargetView,
}

impl View for RowSpec {
    type V = RowView;

    open spec fn view(&self) -> RowView {
        RowView { height: self.height, target: self.target@ }
    }
}

pub open spec fn rows_view(rows: Seq<RowSpec>) -> Seq<RowView> {
    Seq::new(rows.len(), |i: int| rows[i]@)
}

pub open spec fn hits_view(map: Seq<(Rect, ClickTarget)>) -> Seq<(Rect, ClickTargetView)> {
    Seq::new(map.len(), |i: int| (map[i].0, map[i].1@))
}

pub open spec fn gap_view(gap: Option<(WindowId, bool)>) -> Option<(Seq<char>, bool)> {
    match gap {
        Some((anchor, after)) => Some((anchor@, after)),
        None => None,
    }
}

pub open spec fn row(height: u16, target: ClickTargetView) -> RowView {
    RowView { height, target }
}

/// The sessions column: one line per session, then the "+ new session" row.
pub open spec fn session_rows_of(ss: Seq<SessionView>) -> Seq<RowView> {
    Seq::new(ss.len(), |i: int| row(1, ClickTargetView::Session(ss[i].id))).push(
        row(1, ClickTargetView::NewSessionRow),
    )
}

/// The panes column: two lines per pane, then the "+ split pane" row.
pub open spec fn pane_rows_of(ps: Seq<PaneView>) -> Seq<RowView> {
    Seq::new(ps.len(), |i: int| row(2, ClickTargetView::Pane(ps[i].id))).push(
        row(1, ClickTargetView::NewSplitRow),
    )
}

/// The rows one window contributes: its own line, with the insertion line of
/// a window-reorder gap before or after it when the gap is anchored there.
pub open spec fn window_group(w: WindowView, gap: Option<(Seq<char>, bool)>) -> Seq<RowView> {
    let gap_row = |after: bool| row(1, ClickTargetView::WindowGap { anchor: w.id, after });
    (if gap == Some((w.id, false)) {
        seq![gap_row(false)]
    } else {
        seq![]
    }) + seq![row(1, ClickTargetView::Window(w.id))] + (if gap == Some((w.id, true)) {
        seq![gap_row(true)]
    } else {
        seq![]
    })
}

pub open spec fn window_groups(ws: Seq<WindowView>, gap: Option<(Seq<char>, bool)>) -> Seq<
    RowView,
>
    decreases ws.len(),
{
    if ws.len() == 0 {
        seq![]
    } else {
        window_groups(ws.drop_last(), gap) + window_group(ws.last(), gap)
    }
}

/// The windows column: each window's group, then the "+ new window" row.
pub open spec fn window_rows_of(ws: Seq<WindowView>, gap: Option<(Seq<char>, bool)>) -> Seq<
    RowView,
> {
    window_groups(ws, gap).push(row(1, ClickTargetView::NewWindowRow))
}

/// `sel` is the row drawn as selected: the last row that shows `target`, or
/// none when nothing is selected or no row shows it.
pub open spec fn selected_row_is(
    rows: Seq<RowView>,
    target: Option<ClickTargetView>,
    sel: Option<usize>,
) -> bool {
    match target {
        None => sel is None,
        Some(t) => match sel {
            Some(k) => k < rows.len() && rows[k as int].target == t && forall|j: int|
                k < j < rows.len() ==> #[trigger] rows[j].target != t,
            None => forall|j: int| 0 <= j < rows.len() ==> #[trigger] rows[j].target != t,
        },
    }
}

proof fn lemma_selected_push(
    rows: Seq<RowView>,
    target: Option<ClickTargetView>,
    sel: Option<usize>,
    r: RowView,
)
    requires
        selected_row_is(rows, target, sel),
        target != Some(r.target),
    ensures
        selected_row_is(rows.push(r), target, sel),
{
    let p = rows.push(r);
    match target {
        None => {},
        Some(t) => {
            assert forall|j: int| 0 <= j < rows.len() implies p[j] == rows[j] by {}
        },
    }
}

proof fn lemma_selected_push_hit(rows: Seq<RowView>, t: ClickTargetView, r: RowView, k: usize)
    requires
        r.target == t,
        k == rows.len(),
    ensures
        selected_row_is(rows.push(r), Some(t), Some(k)),
{
}

impl App {
    /// The rows of the sessions column and which of them is selected.
    pub fn session_rows(&self) -> (r: (Vec<RowSpec>, Option<usize>))
        ensures
            rows_view(r.0@) == session_rows_of(self.snapshot@.sessions),
            selected_row_is(
                rows_view(r.0@),
                match self.sel_s() {
                    Some(id) => Some(ClickTargetView::Session(id)),
                    None => None,
                },
                r.1,
            ),
    {
        let ghost ss = self.snapshot@.sessions;
        let ghost target = match self.sel_s() {
            Some(id) => Some(ClickTargetView::Session(id)),
            None => None,
        };
        let sessions = &self.snapshot.sessions;
        let mut rows: Vec<RowSpec> = Vec::new();
        let mut sel: Option<usize> = None;
        let mut i: usize = 0;
        while i < sessions.len()
            invariant
                ss == self.snapshot@.sessions,
                ss.len() == sessions@.len(),
                forall|k: int| 0 <= k < ss.len() ==> #[trigger] ss[k].id == sessions@[k].id@,
                0 <= i <= sessions@.len(),
                rows_view(rows@) == Seq::new(
                    i as nat,
                    |k: int| row(1, ClickTargetView::Session(ss[k].id)),
                ),
                selected_row_is(rows_view(rows@), target, sel),
                target == match self.sel_s() {
                    Some(id) => Some(ClickTargetView::Session(id)),
                    None => None,
                },
            decreases sessions.len() - i,
        {
            let s = &sessions[i];
            let ghost before = rows_view(rows@);
            let r = RowSpec { height: 1, target: ClickTarget::Session(s.id.clone()) };
            let hit = match &self.selected_session {
                Some(id) => id.same(&s.id),
                None => false,
            };
            proof {
                assert(ss[i as int].id == s.id@);
            }
            let len = rows.len();
            rows.push(r);
            assert(rows_view(rows@) =~= before.push(rows@[len as int]@));
            if hit {
                proof {
                    lemma_selected_push_hit(before, target->0, rows@[len as int]@, len);
                }
                sel = Some(len);
            } else {
                proof {
                    lemma_selected_push(before, target, sel, rows@[len as int]@);
                }
            }
            assert(rows_view(rows@) =~= Seq::new(
                (i + 1) as nat,
                |k: int| row(1, ClickTargetView::Session(ss[k].id)),
            ));
            i = i + 1;
        }
        let ghost before = rows_view(rows@);
        rows.push(RowSpec { height: 1, target: ClickTarget::NewSessionRow });
        assert(rows_view(rows@) =~= before.push(row(1, ClickTargetView::NewSessionRow)));
        proof {
            lemma_selected_push(before, target, sel, row(1, ClickTargetView::NewSessionRow));
        }
        (rows, sel)
    }

    /// The rows of the panes column and which of them is selected.
    pub fn pane_rows(&self) -> (r: (Vec<RowSpec>, Option<usize>))
        ensures
            rows_view(r.0@) == pane_rows_of(self.panes_view()),
            selected_row_is(
                rows_view(r.0@),
                match self.sel_p() {
                    Some(id) => Some(ClickTargetView::Pane(id)),
                    None => None,
                },
                r.1,
            ),
    {
        let panes = self.panes();
        let ghost ps = self.panes_view();
        let ghost target = match self.sel_p() {
            Some(id) => Some(ClickTargetView::Pane(id)),
            None => None,
        };
        let mut rows: Vec<RowSpec> = Vec::new();
        let mut sel: Option<usize> = None;
        let mut i: usize = 0;
        while i < panes.len()
            invariant
                ps == crate::model::view_panes(panes@),
                0 <= i <= panes@.len(),
                rows_view(rows@) == Seq::new(
                    i as nat,
                    |k: int| row(2, ClickTargetView::Pane(ps[k].id)),
                ),
                selected_row_is(rows_view(rows@), target, sel),
                target == match self.sel_p() {
                    Some(id) => Some(ClickTargetView::Pane(id)),
                    None => None,
                },
            decreases panes.len() - i,
        {
            let p = &panes[i];
            let ghost before = rows_view(rows@);
            let r = RowSpec { height: 2, target: ClickTarget::Pane(p.id.clone()) };
            let hit = match &self.selected_pane {
                Some(id) => id.same(&p.id),
                None => false,
            };
            proof {
                assert(ps[i as int].id == p.id@);
            }
            let len = rows.len();
            rows.push(r);
            assert(rows_view(rows@) =~= before.push(rows@[len as int]@));
            if hit {
                proof {
                    lemma_selected_push_hit(before, target->0, rows@[len as int]@, len);
                }
                sel = Some(len);
            } else {
                proof {
                    lemma_selected_push(before, target, sel, rows@[len as int]@);
                }
            }
            assert(rows_view(rows@) =~= Seq::new(
                (i + 1) as nat,
                |k: int| row(2, ClickTargetView::Pane(ps[k].id)),
            ));
            i = i + 1;
        }
        let ghost before = rows_view(rows@);
        rows.push(RowSpec { height: 1, target: ClickTarget::NewSplitRow });
        assert(rows_view(rows@) =~= before.push(row(1, ClickTargetView::NewSplitRow)));
        proof {
            lemma_selected_push(before, target, sel, row(1, ClickTargetView::NewSplitRow));
        }
        (rows, sel)
    }

    /// The rows of the windows column and which of them is selected; `gap`
    /// is the window-reorder insertion line to draw, anchored before
    /// (`false`) or after (`true`) a window.
    pub fn window_rows(&self, gap: &Option<(WindowId, bool)>) -> (r: (Vec<RowSpec>, Option<usize>))
        ensures
            rows_view(r.0@) == window_rows_of(self.windows_view(), gap_view(*gap)),
            selected_row_is(
                rows_view(r.0@),
                match self.sel_w() {
                    Some(id) => Some(ClickTargetView::Window(id)),
                    None => None,
                },
                r.1,
            ),
    {
        let windows = self.windows();
        let ghost ws = self.windows_view();
        let ghost g = gap_view(*gap);
        let ghost target = match self.sel_w() {
            Some(id) => Some(ClickTargetView::Window(id)),
            None => None,
        };
        let mut rows: Vec<RowSpec> = Vec::new();
        let mut sel: Option<usize> = None;
        let mut i: usize = 0;
        while i < windows.len()
            invariant
                ws == view_windows(windows@),
                g == gap_view(*gap),
                0 <= i <= windows@.len(),
                rows_view(rows@) == window_groups(ws.take(i as int), g),
                selected_row_is(rows_view(rows@), target, sel),
                target == match self.sel_w() {
                    Some(id) => Some(ClickTargetView::Window(id)),
                    None => None,
                },
            decreases windows.len() - i,
        {
            let w = &windows[i];
            proof {
                assert(ws[i as int].id == w.id@);
                assert(ws.take(i + 1).drop_last() =~= ws.take(i as int));
                assert(ws.take(i + 1).last() == ws[i as int]);
            }
            let (before, after) = match gap {
                Some((anchor, after)) => {
                    if anchor.same(&w.id) {
                        (!*after, *after)
                    } else {
                        (false, false)
                    }
                },
                None => (false, false),
            };
            assert(before == (g == Some((w.id@, false))));
            assert(after == (g == Some((w.id@, true))));
            let ghost start = rows_view(rows@);
            if before {
                let ghost prev = rows_view(rows@);
                rows.push(RowSpec {
                    height: 1,
                    target: ClickTarget::WindowGap { anchor: w.id.clone(), after: false },
                });
                assert(rows_view(rows@) =~= prev.push(rows@[rows@.len() - 1]@));
                proof {
                    lemma_selected_push(prev, target, sel, rows@[rows@.len() - 1]@);
                }
            }
            let ghost prev = rows_view(rows@);
            let hit = match &self.selected_window {
                Some(id) => id.same(&w.id),
                None => false,
            };
            let len = rows.len();
            rows.push(RowSpec { height: 1, target: ClickTarget::Window(w.id.clone()) });
            assert(rows_view(rows@) =~= prev.push(rows@[len as int]@));
            if hit {
                proof {
                    lemma_selected_push_hit(prev, target->0, rows@[len as int]@, len);
                }
                sel = Some(len);
            } else {
                proof {
                    lemma_selected_push(prev, target, sel, rows@[len as int]@);
                }
            }
            if after {
                let ghost prev = rows_view(rows@);
                rows.push(RowSpec {
                    height: 1,
                    target: ClickTarget::WindowGap { anchor: w.id.clone(), after: true },
                });
                assert(rows_view(rows@) =~= prev.push(rows@[rows@.len() - 1]@));
                proof {
                    lemma_selected_push(prev, target, sel, rows@[rows@.len() - 1]@);
                }
            }
            assert(rows_view(rows@) =~= start + window_group(ws[i as int], g));
            i = i + 1;
        }
        assert(ws.take(windows@.len() as int) =~= ws);
        let ghost before = rows_view(rows@);
        rows.push(RowSpec { height: 1, target: ClickTarget::NewWindowRow });
        assert(rows_view(rows@) =~= before.push(row(1, ClickTargetView::NewWindowRow)));
        proof {
            lemma_selected_push(before, target, sel, row(1, ClickTargetView::NewWindowRow));
        }
        (rows, sel)
    }
}

/// The hit-map entries of a column whose rows from `i` on are stacked from
/// line `y` down to line `bottom` (excluded), in cells `x` to `x + width`: a
/// row that does not fit whole gets the lines that are left, and stacking
/// stops at the bottom (or at a row of no height).
pub open spec fn visible_hits(
    rows: Seq<RowView>,
    i: int,
    y: int,
    bottom: int,
    x: u16,
    width: u16,
) -> Seq<(Rect, ClickTargetView)>
    decreases rows.len() - i,
{
    if i < 0 || i >= rows.len() || y >= bottom {
        seq![]
    } else {
        let h = rows[i].height as int;
        let vh = if h < bottom - y {
            h
        } else {
            bottom - y
        };
        if vh <= 0 {
            seq![]
        } else {
            seq![(clamped_rect(x, y as u16, width, vh as u16), rows[i].target)] + visible_hits(
                rows,
                i + 1,
                y + h,
                bottom,
                x,
                width,
            )
        }
    }
}

pub open spec fn heights_of(rows: Seq<RowView>) -> Seq<u16> {
    Seq::new(rows.len(), |i: int| rows[i].height)
}

/// Scrolls a column so that its selected row shows and lists the hit-map
/// entries of the rows that are visible in `inner` (the column without its
/// border): the offset it scrolled to, and those entries.
pub fn layout_column(rows: &[RowSpec], selected: Option<usize>, offset: usize, inner: Rect) -> (r:
    (usize, HitMap))
    requires
        inner.y + inner.height <= u16::MAX,
    ensures
        r.0 == crate::ui::columns::clamped_scroll(
            offset as int,
            match selected {
                Some(s) => Some(s as int),
                None => None,
            },
            heights_of(rows_view(rows@)),
            inner.height as int,
        ),
        hits_view(r.1@) == visible_hits(
            rows_view(rows@),
            r.0 as int,
            inner.y as int,
            inner.y + inner.height,
            inner.x,
            inner.width,
        ),
{
    let ghost rs = rows_view(rows@);
    let mut heights: Vec<u16> = Vec::new();
    let mut k: usize = 0;
    while k < rows.len()
        invariant
            rs == rows_view(rows@),
            0 <= k <= rows@.len(),
            heights@ == heights_of(rs).take(k as int),
        decreases rows.len() - k,
    {
        heights.push(rows[k].height);
        assert(heights@ =~= heights_of(rs).take(k + 1));
        k = k + 1;
    }
    assert(heights@ =~= heights_of(rs));
    let off = clamp_scroll(offset, selected, heights.as_slice(), inner.height);
    let bottom: u32 = inner.y as u32 + inner.height as u32;
    let mut hits: HitMap = Vec::new();
    let mut y: u32 = inner.y as u32;
    let mut i: usize = off;
    while i < rows.len() && y < bottom
        invariant
            rs == rows_view(rows@),
            bottom == inner.y + inner.height,
            bottom <= u16::MAX,
            off <= i,
            y <= bottom + u16::MAX,
            hits_view(hits@) + visible_hits(rs, i as int, y as int, bottom as int, inner.x, inner.width)
                == visible_hits(rs, off as int, inner.y as int, bottom as int, inner.x, inner.width),
        ensures
            visible_hits(rs, i as int, y as int, bottom as int, inner.x, inner.width) == Seq::<
                (Rect, ClickTargetView),
            >::empty(),
            hits_view(hits@) == visible_hits(
                rs,
                off as int,
                inner.y as int,
                bottom as int,
                inner.x,
                inner.width,
            ),
        decreases rows.len() - i,
    {
        let h = rows[i].height;
        let room = bottom - y;
        let vh: u16 = if (h as u32) < room {
            h
        } else {
            room as u16
        };
        if vh == 0 {
            assert(hits_view(hits@) =~= hits_view(hits@) + seq![]);
            break;
        }
        let ghost before = hits_view(hits@);
        let rect = rect_new(inner.x, y as u16, inner.width, vh);
        let target = rows[i].target.clone();
        hits.push((rect, target));
        assert(hits_view(hits@) =~= before.push((rect, rows@[i as int].target@)));
        assert(before.push((rect, rs[i as int].target)) + visible_hits(
            rs,
            i + 1,
            y + h,
            bottom as int,
            inner.x,
            inner.width,
        ) =~= before + visible_hits(rs, i as int, y as int, bottom as int, inner.x, inner.width));
        y = y + h as u32;
        i = i + 1;
    }
    (off, hits)
}

} // verus!
