//! The text of the header row (title and live totals) and of the footer row
//! (the key hints of the current mode).
use vstd::prelude::*;

use crate::model::Totals;
use crate::text::{decimal, push_decimal};
use crate::ui::app::Mode;

verus! {

pub open spec fn header_title() -> Seq<char> {
    "tmux :: manager"@
}

/// `"<s> sessions · <w> windows · <p> panes"`.
pub open spec fn totals_text_of(t: Totals) -> Seq<char> {
    decimal(t.sessions as nat) + " sessions \u{b7} "@ + decimal(t.windows as nat)
        + " windows \u{b7} "@ + decimal(t.panes as nat) + " panes"@
}

/// The header's left-hand title.
pub fn header_left() -> (r: String)
    ensures
        r@ == header_title(),
{
    String::from_str("tmux :: manager")
}

/// The header's right-hand totals.
pub fn totals_text(t: Totals) -> (r: String)
    ensures
        r@ == totals_text_of(t),
{
    let mut r = String::new();
    push_decimal(&mut r, t.sessions);
    r.append(" sessions \u{b7} ");
    push_decimal(&mut r, t.windows);
    r.append(" windows \u{b7} ");
    push_decimal(&mut r, t.panes);
    r.append(" panes");
    r
}

/// The spaces between the header's two parts in a row `width` wide: what is
/// left over, but at least one.
pub fn header_padding(width: u16, left_len: usize, right_len: usize) -> (r: usize)
    ensures
        r == (if width - left_len - right_len >= 1 {
            width - left_len - right_len
        } else {
            1
        }),
{
    let used = left_len.saturating_add(right_len);
    let w = width as usize;
    if w > used {
        w - used
    } else {
        1
    }
}

pub open spec fn normal_hint() -> Seq<char> {
    "\u{21b5} attach  n new  r rename  x kill  z zoom  space/m move   \u{2191}\u{2193}/jk   \u{2190}\u{2192}/hl \u{b7} tab focus   g/G top/bottom   q quit"@
}

pub open spec fn input_hint() -> Seq<char> {
    "\u{21b5} confirm   Esc cancel"@
}

pub open spec fn confirm_hint() -> Seq<char> {
    "\u{2190}\u{2192}/hl/tab move   \u{21b5} activate   y yes   n/Esc no"@
}

/// The footer while a drag is under way: the sentence that says what a drop
/// here would do, or that it would do nothing.
pub open spec fn drag_hint(description: Option<Seq<char>>) -> Seq<char> {
    match description {
        Some(d) => "drop: "@ + d + "   \u{b7}   Esc cancel"@,
        None => "drop: (no-op here)   \u{b7}   Esc cancel"@,
    }
}

/// The footer's key hints for `mode`; `drop_description` says what a drop
/// at the drag cursor would do (`None` when it would do nothing).
pub fn footer_hint(mode: &Mode, drop_description: Option<&str>) -> (r: String)
    ensures
        r@ == match mode {
            Mode::Normal => normal_hint(),
            Mode::Input(_) => input_hint(),
            Mode::Confirm(_) => confirm_hint(),
            Mode::Dragging(_) => drag_hint(
                match drop_description {
                    Some(d) => Some(d@),
                    None => None,
                },
            ),
        },
{
    match mode {
        Mode::Normal => String::from_str(
            "\u{21b5} attach  n new  r rename  x kill  z zoom  space/m move   \u{2191}\u{2193}/jk   \u{2190}\u{2192}/hl \u{b7} tab focus   g/G top/bottom   q quit",
        ),
        Mode::Input(_) => String::from_str("\u{21b5} confirm   Esc cancel"),
        Mode::Confirm(_) => String::from_str(
            "\u{2190}\u{2192}/hl/tab move   \u{21b5} activate   y yes   n/Esc no",
        ),
        Mode::Dragging(_) => match drop_description {
            Some(d) => {
                let mut r = String::from_str("drop: ");
                r.append(d);
                r.append("   \u{b7}   Esc cancel");
                r
            },
            None => String::from_str("drop: (no-op here)   \u{b7}   Esc cancel"),
        },
    }
}

} // verus!
