//! The computations behind the three Miller columns: scrolling the selected
//! row into view, the right-hand meta text of each row, the padding between
//! a row's two parts, and home-relative paths.
use vstd::prelude::*;

use crate::model::{PaneView, Session, Window, WindowView};
use crate::ui::app::App;
use crate::ui::theme::{Rgb, Theme};
use crate::text::{chars_of, decimal, push_decimal, string_of};

verus! {

/// The last row that still fits when the rows from `i` on are stacked below
/// `used` filled lines, in a column `vh` lines high (`last` if none does).
pub open spec fn fit_end(heights: Seq<u16>, i: int, used: int, vh: int, last: int) -> int
    decreases heights.len() - i,
{
    if i < 0 || i >= heights.len() || used + heights[i] > vh {
        last
    } else {
        fit_end(heights, i + 1, used + heights[i], vh, i)
    }
}

/// The last row fully visible when the column is scrolled to `offset`.
pub open spec fn last_visible(heights: Seq<u16>, offset: int, vh: int) -> int {
    fit_end(heights, offset, 0, vh, offset)
}

/// The first offset from `o` on at which row `sel` is fully visible.
pub open spec fn scroll_from(heights: Seq<u16>, o: int, sel: int, vh: int) -> int
    decreases sel - o,
{
    if o >= sel || sel <= last_visible(heights, o, vh) {
        o
    } else {
        scroll_from(heights, o + 1, sel, vh)
    }
}

/// Where a column scrolled to `offset` should be scrolled to show `selected`:
/// snap up to the selection if it is above the offset, then walk down until
/// it is fully visible. With nothing selected the offset only stays within
/// the rows.
pub open spec fn clamped_scroll(offset: int, selected: Option<int>, heights: Seq<u16>, vh: int) -> int {
    match selected {
        None => if offset < heights.len() { offset } else { heights.len() as int },
        Some(sel) => scroll_from(heights, if offset < sel { offset } else { sel }, sel, vh),
    }
}

proof fn lemma_fit_end_at_least(heights: Seq<u16>, i: int, used: int, vh: int, last: int)
    requires
        last <= i,
    ensures
        fit_end(heights, i, used, vh, last) >= last,
    decreases heights.len() - i,
{
    if !(i < 0 || i >= heights.len() || used + heights[i] > vh) {
        lemma_fit_end_at_least(heights, i + 1, used + heights[i], vh, i);
    }
}

fn last_visible_row(heights: &[u16], offset: usize, visible_height: u16) -> (r: usize)
    ensures
        r == last_visible(heights@, offset as int, visible_height as int),
        r >= offset,
{
    proof {
        lemma_fit_end_at_least(heights@, offset as int, 0, visible_height as int, offset as int);
    }
    let mut used: u32 = 0;
    let mut last = offset;
    let mut i = offset;
    while i < heights.len()
        invariant
            offset <= last,
            last <= i || (i == offset && last == offset),
            used <= visible_height,
            last_visible(heights@, offset as int, visible_height as int) == fit_end(heights@, i as int, used as int, visible_height as int, last as int),
            last >= offset,
        ensures
            last == last_visible(heights@, offset as int, visible_height as int),
        decreases heights.len() - i,
    {
        let h = heights[i];
        if used + h as u32 > visible_height as u32 {
            break;
        }
        used = used + h as u32;
        last = i;
        i = i + 1;
    }
    last
}

/// Picks the smallest offset such that `selected` (if any) is fully within
/// the visible window, given each row's height (pane rows are two lines).
pub fn clamp_scroll(offset: usize, selected: Option<usize>, heights: &[u16], visible_height: u16) -> (r: usize)
    ensures
        r == clamped_scroll(
            offset as int,
            match selected {
                Some(s) => Some(s as int),
                None => None,
            },
            heights@,
            visible_height as int,
        ),
{
    let ghost orig = offset as int;
    let selected = match selected {
        Some(s) => s,
        None => {
            return if offset < heights.len() {
                offset
            } else {
                heights.len()
            };
        },
    };
    let mut offset = if offset < selected {
        offset
    } else {
        selected
    };
    loop
        invariant
            offset <= selected,
            scroll_from(heights@, offset as int, selected as int, visible_height as int)
                == clamped_scroll(orig, Some(selected as int), heights@, visible_height as int),
        ensures
            offset as int == clamped_scroll(orig, Some(selected as int), heights@, visible_height as int),
        decreases selected - offset,
    {
        let last = last_visible_row(heights, offset, visible_height);
        if selected <= last || offset >= selected {
            break;
        }
        offset = offset + 1;
    }
    offset
}

proof fn lemma_scroll_from(heights: Seq<u16>, o: int, sel: int, vh: int)
    requires
        o <= sel,
    ensures
        o <= scroll_from(heights, o, sel, vh) <= sel,
        sel <= last_visible(heights, scroll_from(heights, o, sel, vh), vh),
        forall|p: int| o <= p < scroll_from(heights, o, sel, vh) ==> sel > #[trigger] last_visible(heights, p, vh),
    decreases sel - o,
{
    lemma_fit_end_at_least(heights, o, 0, vh, o);
    if !(o >= sel || sel <= last_visible(heights, o, vh)) {
        lemma_scroll_from(heights, o + 1, sel, vh);
    }
}

/// After clamping, the selected row is fully visible, and the offset is the
/// least one (from where the column was, or the selection if that is higher
/// up) that shows it.
pub proof fn law_clamp_scroll_shows_selection(offset: int, sel: int, heights: Seq<u16>, vh: int)
    requires
        0 <= sel,
    ensures
        clamped_scroll(offset, Some(sel), heights, vh) <= sel,
        sel <= last_visible(heights, clamped_scroll(offset, Some(sel), heights, vh), vh),
        forall|p: int| (if offset < sel { offset } else { sel }) <= p < clamped_scroll(offset, Some(sel), heights, vh)
            ==> sel > #[trigger] last_visible(heights, p, vh),
{
    lemma_scroll_from(heights, if offset < sel { offset } else { sel }, sel, vh);
}

/// `path` with a leading `home` written as `~` (an empty home abbreviates nothing).
pub open spec fn home_abbreviated(path: Seq<char>, home: Option<Seq<char>>) -> Seq<char> {
    match home {
        Some(h) => if h.len() > 0 && h.len() <= path.len() && path.subrange(0, h.len() as int) == h {
            "~"@ + path.skip(h.len() as int)
        } else {
            path
        },
        None => path,
    }
}

/// Shows `path` relative to `home` (as `~/...`) when it lies under it.
pub fn abbreviate_home(path: &str, home: Option<&str>) -> (r: String)
    ensures
        r@ == home_abbreviated(
            path@,
            match home {
                Some(h) => Some(h@),
                None => None,
            },
        ),
{
    let p = chars_of(path);
    let h = match home {
        Some(h) => chars_of(h),
        None => return string_of(p.as_slice(), 0, p.len()),
    };
    assert(p@.subrange(0, p@.len() as int) =~= p@);
    if h.len() == 0 || h.len() > p.len() {
        return string_of(p.as_slice(), 0, p.len());
    }
    let mut i: usize = 0;
    while i < h.len()
        invariant
            h@.len() <= p@.len(),
            0 < h@.len(),
            p@ == path@,
            home matches Some(hh) && h@ == hh@,
            0 <= i <= h@.len(),
            forall|k: int| 0 <= k < i ==> p@[k] == h@[k],
        decreases h.len() - i,
    {
        if p[i] != h[i] {
            assert(p@.subrange(0, h@.len() as int)[i as int] != h@[i as int]);
            return string_of(p.as_slice(), 0, p.len());
        }
        i = i + 1;
    }
    assert(p@.subrange(0, h@.len() as int) =~= h@);
    let mut r = String::from_str("~");
    let rest = string_of(p.as_slice(), h.len(), p.len());
    r.append(rest.as_str());
    assert(p@.subrange(h@.len() as int, p@.len() as int) =~= p@.skip(h@.len() as int));
    r
}

/// The spaces between a row's left part and its right-aligned meta text in a
/// column `width` wide (two columns go to the selection gutter): what is left
/// over, but at least one when there is meta text.
pub open spec fn padding(left_len: int, right_len: int, width: int) -> int {
    let available = if width > 2 { width - 2 } else { 0 };
    let rest = if available > left_len + right_len { available - left_len - right_len } else { 0 };
    if right_len > 0 && rest < 1 {
        1
    } else {
        rest
    }
}

/// The padding between the two parts of a row.
pub fn row_padding(left_len: usize, right_len: usize, width: u16) -> (r: usize)
    ensures
        r == padding(left_len as int, right_len as int, width as int),
{
    let available: usize = if width > 2 { (width - 2) as usize } else { 0 };
    let rest = available.saturating_sub(left_len).saturating_sub(right_len);
    if right_len > 0 && rest < 1 {
        1
    } else {
        rest
    }
}

/// A session row's meta text: how many windows it has.
pub open spec fn session_meta_text(n: nat) -> Seq<char> {
    decimal(n) + " win"@
}

pub fn session_meta(s: &Session) -> (r: String)
    ensures
        r@ == session_meta_text(s.windows@.len()),
{
    let mut r = String::new();
    push_decimal(&mut r, s.windows.len());
    r.append(" win");
    assert(r@ =~= session_meta_text(s.windows@.len()));
    r
}

pub open spec fn any_zoomed(ps: Seq<PaneView>) -> bool {
    exists|k: int| 0 <= k < ps.len() && ps[k].zoomed
}

/// A window row's meta text: the command of its active pane, marked ` Z`
/// while the window is zoomed.
pub open spec fn window_meta_text(w: WindowView) -> Seq<char> {
    let cmd = match crate::ui::app::first_active_pane(w.panes) {
        Some(j) => w.panes[j].command,
        None => seq![],
    };
    if any_zoomed(w.panes) {
        cmd + " Z"@
    } else {
        cmd
    }
}

pub fn window_meta(w: &Window) -> (r: String)
    ensures
        r@ == window_meta_text(w@),
{
    let ghost ps = w@.panes;
    let mut zoomed = false;
    let mut i: usize = 0;
    while i < w.panes.len()
        invariant
            0 <= i <= w.panes@.len(),
            ps == w@.panes,
            zoomed == exists|k: int| 0 <= k < i && ps[k].zoomed,
        decreases w.panes.len() - i,
    {
        if w.panes[i].zoomed {
            assert(ps[i as int].zoomed);
            zoomed = true;
        }
        i = i + 1;
    }
    let mut r = match crate::ui::app::first_active_pane_index(w.panes.as_slice()) {
        Some(j) => w.panes[j].command.clone(),
        None => String::new(),
    };
    if zoomed {
        r.append(" Z");
    }
    r
}

/// The windows column's title: `WINDOWS`, with the selected session's name.
pub open spec fn windows_title_of(app: App) -> Seq<char> {
    match app.session_view() {
        Some(s) => "WINDOWS \u{b7} "@ + s.name,
        None => "WINDOWS"@,
    }
}

/// The panes column's title: `PANES`, with the selected window's index and name.
pub open spec fn panes_title_of(app: App) -> Seq<char> {
    match app.window_view() {
        Some(w) => "PANES \u{b7} "@ + decimal(w.index as nat) + ":"@ + w.name,
        None => "PANES"@,
    }
}

pub fn windows_title(app: &App) -> (r: String)
    ensures
        r@ == windows_title_of(*app),
{
    match app.current_session() {
        Some(s) => {
            let mut r = String::from_str("WINDOWS \u{b7} ");
            r.append(s.name.as_str());
            r
        },
        None => String::from_str("WINDOWS"),
    }
}

pub fn panes_title(app: &App) -> (r: String)
    ensures
        r@ == panes_title_of(*app),
{
    match app.current_window() {
        Some(w) => {
            let mut r = String::from_str("PANES \u{b7} ");
            push_decimal(&mut r, w.index as usize);
            r.append(":");
            r.append(w.name.as_str());
            r
        },
        None => String::from_str("PANES"),
    }
}

/// How many `─` cells the window-reorder insertion line takes in a column
/// `width` wide: all but the two gutter cells, and at least one.
pub fn insertion_fill(width: u16) -> (r: usize)
    ensures
        r == (if width > 3 {
            width - 2
        } else {
            1
        }),
{
    if width > 3 {
        (width - 2) as usize
    } else {
        1
    }
}

/// The colours of a drawn row: its background, the gutter bar on its first
/// line (none when the bar is not shown), and whether its name is bold.
#[derive(Debug, Clone, Copy)]
pub struct RowStyle {
    pub bg: Rgb,
    pub gutter: Option<Rgb>,
    pub bold_name: bool,
}

/// The style of a row: a valid drop target is marked in the accent colour;
/// the selected row of the focused column gets the selection background, the
/// green gutter bar and a bold name; a selected row elsewhere, or a hovered
/// one, gets the dim background.
pub fn row_style(theme: &Theme, selected: bool, focused: bool, drop_valid: bool, hovered: bool) -> (r:
    RowStyle)
    ensures
        r.bg == (if drop_valid {
            theme.surface1
        } else if selected && focused {
            theme.surface0
        } else if selected || hovered {
            theme.mantle
        } else {
            theme.base
        }),
        r.gutter == (if drop_valid {
            Some(theme.blue)
        } else if selected && focused {
            Some(theme.green)
        } else {
            None
        }),
        r.bold_name == (selected && focused),
{
    let bg = if drop_valid {
        theme.surface1
    } else if selected && focused {
        theme.selection_bg()
    } else if selected || hovered {
        theme.mantle
    } else {
        theme.bg()
    };
    let gutter = if drop_valid {
        Some(theme.accent())
    } else if selected && focused {
        Some(theme.active())
    } else {
        None
    };
    RowStyle { bg, gutter, bold_name: selected && focused }
}

/// The dot before a session or pane: filled and green when the session is
/// attached or the pane active, hollow and dim otherwise.
pub fn status_dot(theme: &Theme, on: bool) -> (r: (&'static str, Rgb))
    ensures
        r.0@ == (if on {
            "\u{25cf}"@
        } else {
            "\u{25cb}"@
        }),
        r.1 == (if on {
            theme.green
        } else {
            theme.subtext0
        }),
{
    if on {
        ("\u{25cf}", theme.active())
    } else {
        ("\u{25cb}", theme.meta())
    }
}

/// The text and background colours of a `+ ...` row: accent on the drop
/// background when it is a valid drop target, dim text otherwise, on the dim
/// background while hovered.
pub fn pseudo_row_colors(theme: &Theme, drop_valid: bool, hovered: bool) -> (r: (Rgb, Rgb))
    ensures
        r.0 == (if drop_valid {
            theme.blue
        } else {
            theme.overlay0
        }),
        r.1 == (if drop_valid {
            theme.surface1
        } else if hovered {
            theme.mantle
        } else {
            theme.base
        }),
{
    let fg = if drop_valid {
        theme.accent()
    } else {
        theme.overlay0
    };
    let bg = if drop_valid {
        theme.surface1
    } else if hovered {
        theme.mantle
    } else {
        theme.bg()
    };
    (fg, bg)
}

/// The colour of a window-reorder insertion line: the accent when dropping
/// there would do something, dim otherwise.
pub fn insertion_color(theme: &Theme, valid: bool) -> (r: Rgb)
    ensures
        r == (if valid {
            theme.blue
        } else {
            theme.overlay0
        }),
{
    if valid {
        theme.accent()
    } else {
        theme.overlay0
    }
}

} // verus!
