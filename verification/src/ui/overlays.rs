//! The rename/new input overlay, the kill confirmation, and toasts.
use vstd::prelude::*;

use crate::text::{chars_of, pop_char, push_char, string_of};
use crate::tmux::ids::{PaneId, SessionId, WindowId};
use crate::ui::drag::DragItem;
use crate::ui::geometry::{clamped_rect, rect_new, Rect};

verus! {

/// How long a toast stays up, in milliseconds.
pub const TOAST_LIFETIME_MS: u128 = 3000;

/// What an [`InputOverlay`] is editing, and the target it will act on when confirmed.
#[derive(Debug, PartialEq, Eq)]
pub enum InputKind {
    NewSession,
    RenameSession(SessionId),
    RenameWindow(WindowId),
    RenamePaneTitle(PaneId),
    /// A drag committed onto "+ new session": names the session that the
    /// dragged window or pane moves into once the name is confirmed.
    NewSessionFromDrag(DragItem),
}

impl Clone for InputKind {
    fn clone(&self) -> (c: Self)
        ensures
            input_kind_same(c, *self),
    {
        match self {
            InputKind::NewSession => InputKind::NewSession,
            InputKind::RenameSession(id) => InputKind::RenameSession(id.clone()),
            InputKind::RenameWindow(id) => InputKind::RenameWindow(id.clone()),
            InputKind::RenamePaneTitle(id) => InputKind::RenamePaneTitle(id.clone()),
            InputKind::NewSessionFromDrag(item) => InputKind::NewSessionFromDrag(item.clone()),
        }
    }
}

/// Two kinds that name the same target.
pub open spec fn input_kind_same(a: InputKind, b: InputKind) -> bool {
    match (a, b) {
        (InputKind::NewSession, InputKind::NewSession) => true,
        (InputKind::RenameSession(x), InputKind::RenameSession(y)) => x@ == y@,
        (InputKind::RenameWindow(x), InputKind::RenameWindow(y)) => x@ == y@,
        (InputKind::RenamePaneTitle(x), InputKind::RenamePaneTitle(y)) => x@ == y@,
        (InputKind::NewSessionFromDrag(x), InputKind::NewSessionFromDrag(y)) => x@ == y@,
        _ => false,
    }
}

pub open spec fn input_label(k: InputKind) -> Seq<char> {
    match k {
        InputKind::NewSession | InputKind::NewSessionFromDrag(_) => "new session name"@,
        InputKind::RenameSession(_) => "rename session"@,
        InputKind::RenameWindow(_) => "rename window"@,
        InputKind::RenamePaneTitle(_) => "pane title"@,
    }
}

impl InputKind {
    /// The overlay's title.
    pub fn label(&self) -> (l: &'static str)
        ensures
            l@ == input_label(*self),
    {
        match self {
            InputKind::NewSession | InputKind::NewSessionFromDrag(_) => "new session name",
            InputKind::RenameSession(_) => "rename session",
            InputKind::RenameWindow(_) => "rename window",
            InputKind::RenamePaneTitle(_) => "pane title",
        }
    }
}

#[derive(Debug, Clone)]
pub struct InputOverlay {
    pub kind: InputKind,
    pub text: String,
    pub error: Option<String>,
}

impl InputOverlay {
    pub fn new(kind: InputKind, prefill: &str) -> (o: Self)
        ensures
            o.kind == kind,
            o.text@ == prefill@,
            o.error is None,
    {
        InputOverlay { kind, text: prefill.to_owned(), error: None }
    }

    /// Types one character; any validation error is cleared.
    pub fn push_char(&mut self, c: char)
        ensures
            final(self).text@ == old(self).text@.push(c),
            final(self).error is None,
            final(self).kind == old(self).kind,
    {
        push_char(&mut self.text, c);
        self.error = None;
    }

    /// Deletes the last character, if any; any validation error is cleared.
    pub fn backspace(&mut self)
        ensures
            final(self).text@ == (if old(self).text@.len() > 0 {
                old(self).text@.drop_last()
            } else {
                old(self).text@
            }),
            final(self).error is None,
            final(self).kind == old(self).kind,
    {
        pop_char(&mut self.text);
        self.error = None;
    }
}

/// Backspace takes back the character just typed.
pub proof fn law_backspace_undoes_push(text: Seq<char>, c: char)
    ensures
        text.push(c).len() > 0,
        text.push(c).drop_last() == text,
{
    assert(text.push(c).drop_last() =~= text);
}

/// What a [`ConfirmOverlay`] will do on `y`.
#[derive(Debug, PartialEq, Eq)]
pub enum ConfirmKind {
    KillSession(SessionId),
    KillWindow(WindowId),
    KillPane(PaneId),
}

impl Clone for ConfirmKind {
    fn clone(&self) -> (c: Self)
        ensures
            confirm_kind_same(c, *self),
    {
        match self {
            ConfirmKind::KillSession(id) => ConfirmKind::KillSession(id.clone()),
            ConfirmKind::KillWindow(id) => ConfirmKind::KillWindow(id.clone()),
            ConfirmKind::KillPane(id) => ConfirmKind::KillPane(id.clone()),
        }
    }
}

/// Two kinds that kill the same target.
pub open spec fn confirm_kind_same(a: ConfirmKind, b: ConfirmKind) -> bool {
    match (a, b) {
        (ConfirmKind::KillSession(x), ConfirmKind::KillSession(y)) => x@ == y@,
        (ConfirmKind::KillWindow(x), ConfirmKind::KillWindow(y)) => x@ == y@,
        (ConfirmKind::KillPane(x), ConfirmKind::KillPane(y)) => x@ == y@,
        _ => false,
    }
}

#[derive(Debug, Clone)]
pub struct ConfirmOverlay {
    pub kind: ConfirmKind,
    pub message: String,
}

#[verifier::external_type_specification]
#[verifier::external_body]
pub struct ExInstant(std::time::Instant);

/// The current instant (`Instant::now`).
#[verifier::external_body]
fn now() -> std::time::Instant {
    std::time::Instant::now()
}

/// Milliseconds elapsed since `since` (`Instant::elapsed`, in whole
/// milliseconds). It depends on the clock, so nothing is stated of it.
#[verifier::external_body]
fn elapsed_millis(since: &std::time::Instant) -> u128 {
    since.elapsed().as_millis()
}

/// Whether a toast shown `elapsed_ms` milliseconds ago has lived its time.
pub fn lifetime_over(elapsed_ms: u128) -> (r: bool)
    ensures
        r == (elapsed_ms >= TOAST_LIFETIME_MS),
{
    elapsed_ms >= TOAST_LIFETIME_MS
}

#[derive(Debug)]
pub struct Toast {
    pub message: String,
    pub is_error: bool,
    created_at: std::time::Instant,
}

impl Clone for Toast {
    /// A copy with the same text, kind and age.
    fn clone(&self) -> (c: Self)
        ensures
            c.text() == self.text(),
            c.reports_error() == self.reports_error(),
    {
        Toast { message: self.message.clone(), is_error: self.is_error, created_at: self.created_at }
    }
}

impl Toast {
    /// The toast's text.
    pub closed spec fn text(self) -> Seq<char> {
        self.message@
    }

    /// Whether the toast reports an error.
    pub closed spec fn reports_error(self) -> bool {
        self.is_error
    }

    pub fn info(message: String) -> (t: Self)
        ensures
            t.text() == message@,
            !t.reports_error(),
    {
        Toast { message, is_error: false, created_at: now() }
    }

    pub fn error(message: String) -> (t: Self)
        ensures
            t.text() == message@,
            t.reports_error(),
    {
        Toast { message, is_error: true, created_at: now() }
    }

    /// Whether the toast has been up for its whole lifetime; this reads the clock.
    pub fn expired(&self) -> bool {
        lifetime_over(elapsed_millis(&self.created_at))
    }
}

/// Centers a `width`x`height` box within `area`, clamped so it never exceeds it.
pub fn centered_rect(width: u16, height: u16, area: Rect) -> (r: Rect)
    requires
        area.x + area.width <= u16::MAX,
        area.y + area.height <= u16::MAX,
    ensures
        r.width == (if width < area.width { width } else { area.width }),
        r.height == (if height < area.height { height } else { area.height }),
        r.x == area.x + (area.width - r.width) / 2,
        r.y == area.y + (area.height - r.height) / 2,
{
    let width = if width < area.width { width } else { area.width };
    let height = if height < area.height { height } else { area.height };
    let x = area.x + (area.width - width) / 2;
    let y = area.y + (area.height - height) / 2;
    rect_new(x, y, width, height)
}

/// The input box's title: the kind's label with a space on either side.
pub fn input_title(overlay: &InputOverlay) -> (r: String)
    ensures
        r@ == " "@ + input_label(overlay.kind) + " "@,
{
    let mut r = String::from_str(" ");
    r.append(overlay.kind.label());
    r.append(" ");
    r
}

/// The clickable cells of the confirmation box's `[y]es` and `[n]o` labels,
/// which stand on the second line of its inside `inner` with two spaces
/// between them; none when that line is not there.
pub fn confirm_buttons(inner: Rect) -> (r: Option<(Rect, Rect)>)
    requires
        inner.x + 7 <= u16::MAX,
        inner.y + inner.height <= u16::MAX,
    ensures
        inner.height >= 2 ==> r == Some(
            (
                clamped_rect(inner.x, (inner.y + 1) as u16, 5, 1),
                clamped_rect((inner.x + 7) as u16, (inner.y + 1) as u16, 4, 1),
            ),
        ),
        inner.height < 2 ==> r is None,
{
    if inner.height >= 2 {
        let buttons_y = inner.y + 1;
        let yes = rect_new(inner.x, buttons_y, 5, 1);
        let no = rect_new(inner.x + 5 + 2, buttons_y, 4, 1);
        Some((yes, no))
    } else {
        None
    }
}

/// A toast's message cut to the `width` cells of its row.
pub fn toast_text(message: &str, width: u16) -> (r: String)
    ensures
        r@ == (if message@.len() > width {
            message@.take(width as int)
        } else {
            message@
        }),
{
    let cs = chars_of(message);
    let n = if cs.len() > width as usize {
        width as usize
    } else {
        cs.len()
    };
    assert(message@.take(cs@.len() as int) =~= message@);
    string_of(cs.as_slice(), 0, n)
}

} // verus!
