//! The app state: the snapshot being shown, the focused column, the
//! selection in each of the three Miller columns, and the interaction mode.
//!
//! Operations that need tmux return the [`TmuxAction`] to run; the caller
//! runs it and hands the outcome back (`report`, `activate_done`), then
//! refreshes the snapshot with `apply_refresh`.
use vstd::prelude::*;

use crate::model::{
    find_pane, find_session, find_window, lemma_index_of_first, pane_ids, pane_position,
    session_ids, session_position, view_panes, view_sessions, view_windows, window_ids,
    window_position, Pane, PaneView, Session, SessionView, Snapshot, SnapshotView, Window,
    WindowView,
};
use crate::text::{contains_char, text_eq, trim, trimmed};
use crate::tmux::actions::{ActionError, TmuxAction};
use crate::tmux::ids::{PaneId, SessionId, WindowId};
use crate::ui::drag::{DragItem, DragState};
use crate::ui::overlays::{ConfirmKind, ConfirmOverlay, InputKind, InputOverlay, Toast};

verus! {

#[derive(Debug, Clone, Copy, PartialEq, Eq, Structural)]
pub enum Column {
    Sessions,
    Windows,
    Panes,
}

/// The app's interaction mode: plain navigation, one of the two overlays, or
/// a move in progress.
#[derive(Debug)]
pub enum Mode {
    Normal,
    Input(InputOverlay),
    Confirm(ConfirmOverlay),
    Dragging(DragState),
}

#[derive(Debug)]
pub struct App {
    pub snapshot: Snapshot,
    pub focus: Column,
    pub selected_session: Option<SessionId>,
    pub selected_window: Option<WindowId>,
    pub selected_pane: Option<PaneId>,
    pub should_quit: bool,
    pub mode: Mode,
    pub toast: Option<Toast>,
}

pub open spec fn opt_session(o: Option<SessionId>) -> Option<Seq<char>> {
    match o {
        Some(i) => Some(i@),
        None => None,
    }
}

pub open spec fn opt_window(o: Option<WindowId>) -> Option<Seq<char>> {
    match o {
        Some(i) => Some(i@),
        None => None,
    }
}

pub open spec fn opt_pane(o: Option<PaneId>) -> Option<Seq<char>> {
    match o {
        Some(i) => Some(i@),
        None => None,
    }
}

/// The session selected by `sel` in `snap`, if it is there.
pub open spec fn session_of(snap: SnapshotView, sel: Option<Seq<char>>) -> Option<SessionView> {
    match sel {
        Some(id) => find_session(snap.sessions, id),
        None => None,
    }
}

/// The windows shown in the second column: those of the selected session.
pub open spec fn windows_of(snap: SnapshotView, sel_s: Option<Seq<char>>) -> Seq<WindowView> {
    match session_of(snap, sel_s) {
        Some(s) => s.windows,
        None => seq![],
    }
}

/// The window selected by `sel_w` within the selected session.
pub open spec fn window_of(snap: SnapshotView, sel_s: Option<Seq<char>>, sel_w: Option<Seq<char>>) -> Option<WindowView> {
    match (session_of(snap, sel_s), sel_w) {
        (Some(s), Some(w)) => find_window(s.windows, w),
        _ => None,
    }
}

/// The panes shown in the third column: those of the selected window.
pub open spec fn panes_of(snap: SnapshotView, sel_s: Option<Seq<char>>, sel_w: Option<Seq<char>>) -> Seq<PaneView> {
    match window_of(snap, sel_s, sel_w) {
        Some(w) => w.panes,
        None => seq![],
    }
}

/// The first id of a column, if it has any rows.
pub open spec fn first_id(ids: Seq<Seq<char>>) -> Option<Seq<char>> {
    if ids.len() > 0 {
        Some(ids[0])
    } else {
        None
    }
}

/// The last id of a column, if it has any rows.
pub open spec fn last_id(ids: Seq<Seq<char>>) -> Option<Seq<char>> {
    if ids.len() > 0 {
        Some(ids.last())
    } else {
        None
    }
}

pub open spec fn clamp(v: int, lo: int, hi: int) -> int {
    if v < lo {
        lo
    } else if v > hi {
        hi
    } else {
        v
    }
}

/// Moving `delta` rows from `cur` in a column of `ids`: clamped at both ends,
/// starting from the first row when `cur` is not in the column.
pub open spec fn shifted(ids: Seq<Seq<char>>, cur: Option<Seq<char>>, delta: int) -> Option<Seq<char>> {
    if ids.len() == 0 {
        None
    } else {
        let idx = match cur {
            Some(c) => match ids.index_of_first(c) {
                Some(i) => clamp(i + delta, 0, ids.len() - 1),
                None => 0,
            },
            None => 0,
        };
        Some(ids[idx])
    }
}

/// The selection of a column after a refresh: the previous id if it is still
/// there, else the row now at the previous index (clamped), else the first.
pub open spec fn resolved(ids: Seq<Seq<char>>, prev_id: Option<Seq<char>>, prev_index: Option<int>) -> Option<Seq<char>> {
    if prev_id is Some && ids.contains(prev_id.unwrap()) {
        prev_id
    } else if ids.len() == 0 {
        None
    } else {
        let i = match prev_index {
            Some(i) => i,
            None => 0,
        };
        Some(ids[if i < ids.len() - 1 { i } else { ids.len() - 1 }])
    }
}

/// Where `id` sits in `ids`, if it does.
pub open spec fn position(ids: Seq<Seq<char>>, id: Option<Seq<char>>) -> Option<int> {
    match id {
        Some(i) => ids.index_of_first(i),
        None => None,
    }
}

pub open spec fn column_index(c: Column) -> int {
    match c {
        Column::Sessions => 0,
        Column::Windows => 1,
        Column::Panes => 2,
    }
}

pub open spec fn column_at(i: int) -> Column {
    if i == 0 {
        Column::Sessions
    } else if i == 1 {
        Column::Windows
    } else {
        Column::Panes
    }
}

/// The row reached by moving `delta` rows from `cur` in a column of `len`
/// rows, clamped at both ends; the first row when nothing is selected.
fn shift_index(len: usize, cur: Option<usize>, delta: i32) -> (r: Option<usize>)
    requires
        cur matches Some(i) ==> i < len,
    ensures
        len == 0 ==> r is None,
        len > 0 ==> r == Some(
            (match cur {
                Some(i) => clamp(i + delta, 0, len - 1),
                None => 0,
            }) as usize,
        ),
{
    if len == 0 {
        return None;
    }
    let idx: usize = match cur {
        Some(i) => {
            let v: i128 = i as i128 + delta as i128;
            if v < 0 {
                0
            } else if v > (len - 1) as i128 {
                len - 1
            } else {
                v as usize
            }
        },
        None => 0,
    };
    Some(idx)
}

pub open spec fn opt_int(o: Option<usize>) -> Option<int> {
    match o {
        Some(i) => Some(i as int),
        None => None,
    }
}

/// The row selected after a refresh: the old index, clamped to the column.
fn refreshed_index(len: usize, prev: Option<usize>) -> (r: usize)
    requires
        len > 0,
    ensures
        r == (match prev {
            Some(i) => if i < len - 1 { i } else { (len - 1) as usize },
            None => 0,
        }),
{
    let i = match prev {
        Some(i) => i,
        None => 0,
    };
    if i < len - 1 {
        i
    } else {
        len - 1
    }
}

/// The first window of `ws` that is its session's active window.
pub open spec fn first_active_window(ws: Seq<WindowView>) -> Option<int> {
    if exists|k: int| 0 <= k < ws.len() && ws[k].active {
        Some(choose|k: int| 0 <= k < ws.len() && ws[k].active && forall|j: int| 0 <= j < k ==> !(#[trigger] ws[j]).active)
    } else {
        None
    }
}

/// The first pane of `ps` that is its window's active pane.
pub open spec fn first_active_pane(ps: Seq<PaneView>) -> Option<int> {
    if exists|k: int| 0 <= k < ps.len() && ps[k].active {
        Some(choose|k: int| 0 <= k < ps.len() && ps[k].active && forall|j: int| 0 <= j < k ==> !(#[trigger] ps[j]).active)
    } else {
        None
    }
}

/// The working directory of a session's active window's active pane.
pub open spec fn active_path(s: SessionView) -> Option<Seq<char>> {
    match first_active_window(s.windows) {
        Some(i) => match first_active_pane(s.windows[i].panes) {
            Some(j) => Some(s.windows[i].panes[j].path),
            None => None,
        },
        None => None,
    }
}

/// The check on a session name: non-empty, free of `:` and `.` (both
/// meaningful in tmux target syntax), and unique among the sessions, the
/// session being renamed (if any) excepted.
pub open spec fn session_name_check(name: Seq<char>, ss: Seq<SessionView>, renaming: Option<Seq<char>>) -> Result<(), Seq<char>> {
    if name.len() == 0 {
        Err("cannot be empty"@)
    } else if name.contains(':') || name.contains('.') {
        Err("name cannot contain ':' or '.'"@)
    } else if exists|i: int| 0 <= i < ss.len() && ss[i].name == name && Some(ss[i].id) != renaming {
        Err("session '"@ + name + "' already exists"@)
    } else {
        Ok(())
    }
}

pub open spec fn non_empty_check(name: Seq<char>) -> Result<(), Seq<char>> {
    if name.len() == 0 {
        Err("cannot be empty"@)
    } else {
        Ok(())
    }
}

pub open spec fn result_view(r: Result<(), String>) -> Result<(), Seq<char>> {
    match r {
        Ok(()) => Ok(()),
        Err(m) => Err(m@),
    }
}

pub fn first_active_window_index(windows: &[Window]) -> (r: Option<usize>)
    ensures
        opt_int(r) == first_active_window(view_windows(windows@)),
        r matches Some(i) ==> i < windows@.len(),
{
    let ghost ws = view_windows(windows@);
    let mut i: usize = 0;
    while i < windows.len()
        invariant
            0 <= i <= windows@.len(),
            ws == view_windows(windows@),
            forall|j: int| 0 <= j < i ==> !(#[trigger] ws[j]).active,
        decreases windows.len() - i,
    {
        if windows[i].active {
            assert(ws[i as int].active);
            let ghost k = choose|k: int| 0 <= k < ws.len() && ws[k].active && forall|j: int| 0 <= j < k ==> !(#[trigger] ws[j]).active;
            assert(k == i) by {
                if k < i {
                    assert(!ws[k].active);
                }
                if k > i {
                    assert(!ws[i as int].active);
                }
            }
            return Some(i);
        }
        i = i + 1;
    }
    None
}

pub fn first_active_pane_index(panes: &[Pane]) -> (r: Option<usize>)
    ensures
        opt_int(r) == first_active_pane(view_panes(panes@)),
        r matches Some(i) ==> i < panes@.len(),
{
    let ghost ps = view_panes(panes@);
    let mut i: usize = 0;
    while i < panes.len()
        invariant
            0 <= i <= panes@.len(),
            ps == view_panes(panes@),
            forall|j: int| 0 <= j < i ==> !(#[trigger] ps[j]).active,
        decreases panes.len() - i,
    {
        if panes[i].active {
            assert(ps[i as int].active);
            let ghost k = choose|k: int| 0 <= k < ps.len() && ps[k].active && forall|j: int| 0 <= j < k ==> !(#[trigger] ps[j]).active;
            assert(k == i) by {
                if k < i {
                    assert(!ps[k].active);
                }
                if k > i {
                    assert(!ps[i as int].active);
                }
            }
            return Some(i);
        }
        i = i + 1;
    }
    None
}

/// cwd of the session's active window's active pane.
fn active_pane_path(session: &Session) -> (r: Option<&String>)
    ensures
        match active_path(session@) {
            Some(p) => r matches Some(x) && x@ == p,
            None => r is None,
        },
{
    match first_active_window_index(session.windows.as_slice()) {
        Some(i) => {
            let w = &session.windows[i];
            match first_active_pane_index(w.panes.as_slice()) {
                Some(j) => Some(&w.panes[j].path),
                None => None,
            }
        },
        None => None,
    }
}

/// Whether `name` is non-empty.
pub fn validate_non_empty(name: &str) -> (r: Result<(), String>)
    ensures
        result_view(r) == non_empty_check(name@),
{
    if name.is_empty() {
        Err(String::from_str("cannot be empty"))
    } else {
        Ok(())
    }
}

/// Checks a new or renamed session's name: non-empty, no `:` or `.`, and not
/// the name of another session (`renaming` is excluded from that check).
pub fn validate_session_name(name: &str, sessions: &[Session], renaming: Option<&SessionId>) -> (r: Result<(), String>)
    ensures
        result_view(r) == session_name_check(
            name@,
            view_sessions(sessions@),
            match renaming {
                Some(id) => Some(id@),
                None => None,
            },
        ),
{
    if name.is_empty() {
        return Err(String::from_str("cannot be empty"));
    }
    if contains_char(name, ':') || contains_char(name, '.') {
        return Err(String::from_str("name cannot contain ':' or '.'"));
    }
    let ghost ss = view_sessions(sessions@);
    let ghost ren = match renaming {
        Some(id) => Some(id@),
        None => None::<Seq<char>>,
    };
    let mut i: usize = 0;
    while i < sessions.len()
        invariant
            0 <= i <= sessions@.len(),
            ss == view_sessions(sessions@),
            name@.len() > 0,
            !name@.contains(':') && !name@.contains('.'),
            ren == (match renaming {
                Some(id) => Some(id@),
                None => None::<Seq<char>>,
            }),
            forall|k: int| 0 <= k < i ==> !((#[trigger] ss[k]).name == name@ && Some(ss[k].id) != ren),
        decreases sessions.len() - i,
    {
        let is_renamed = match renaming {
            Some(id) => sessions[i].id.same(id),
            None => false,
        };
        if text_eq(sessions[i].name.as_str(), name) && !is_renamed {
            assert(ss[i as int].name == name@ && Some(ss[i as int].id) != ren);
            let mut m = String::from_str("session '");
            m.append(name);
            m.append("' already exists");
            return Err(m);
        }
        i = i + 1;
    }
    Ok(())
}

/// The confirmation asked before killing a session. Killing the last session
/// ends the tmux server; killing the client's own session moves the client.
pub open spec fn kill_session_message(name: Seq<char>, is_last: bool, is_attached: bool) -> Seq<char> {
    if is_last {
        "kill '"@ + name + "' \u{2014} this is the last session, the tmux server will exit. kill?"@
    } else if is_attached {
        "kill attached session '"@ + name + "'? (client will jump/detach)"@
    } else {
        "kill session '"@ + name + "'?"@
    }
}

/// The check run on an input overlay's trimmed text before it is acted on.
pub open spec fn input_check(kind: InputKind, text: Seq<char>, ss: Seq<SessionView>) -> Result<(), Seq<char>> {
    match kind {
        InputKind::NewSession => session_name_check(text, ss, None),
        InputKind::RenameSession(id) => session_name_check(text, ss, Some(id@)),
        InputKind::RenameWindow(_) => non_empty_check(text),
        InputKind::RenamePaneTitle(_) => non_empty_check(text),
        InputKind::NewSessionFromDrag(_) => session_name_check(text, ss, None),
    }
}

/// The action a confirmed input overlay asks for.
pub open spec fn input_action(kind: InputKind, text: Seq<char>, home: Seq<char>, r: TmuxAction) -> bool {
    match kind {
        InputKind::NewSession => r matches TmuxAction::NewSession { name, cwd } && name@ == text && cwd@ == home,
        InputKind::RenameSession(id) => r matches TmuxAction::RenameSession { session, name } && session@ == id@ && name@ == text,
        InputKind::RenameWindow(id) => r matches TmuxAction::RenameWindow { window, name } && window@ == id@ && name@ == text,
        InputKind::RenamePaneTitle(id) => r matches TmuxAction::SetPaneTitle { pane, title } && pane@ == id@ && title@ == text,
        InputKind::NewSessionFromDrag(DragItem::Window(w)) => r matches TmuxAction::WindowToNewSession { window, name, cwd }
            && window@ == w@ && name@ == text && cwd@ == home,
        InputKind::NewSessionFromDrag(DragItem::Pane(p)) => r matches TmuxAction::PaneToNewSession { pane, name, cwd }
            && pane@ == p@ && name@ == text && cwd@ == home,
    }
}

/// The action a confirmed kill asks for.
pub open spec fn kill_action(kind: ConfirmKind, r: TmuxAction) -> bool {
    match kind {
        ConfirmKind::KillSession(id) => r matches TmuxAction::KillSession { session } && session@ == id@,
        ConfirmKind::KillWindow(id) => r matches TmuxAction::KillWindow { window } && window@ == id@,
        ConfirmKind::KillPane(id) => r matches TmuxAction::KillPane { pane } && pane@ == id@,
    }
}

/// What `App::apply_refresh` does, as a relation between the app before and after it.
pub open spec fn apply_refresh_step(before: App, after: App, snapshot: Snapshot) -> bool {
    &&& after.snapshot == snapshot
    &&& after.focus == before.focus
    &&& after.should_quit == before.should_quit
    &&& after.mode == before.mode
    &&& after.toast == before.toast
    &&& after.sel_s() == resolved(
        session_ids(snapshot@.sessions),
        before.sel_s(),
        position(session_ids(before.snapshot@.sessions), before.sel_s()),
    )
    &&& after.sel_w() == resolved(
        window_ids(windows_of(snapshot@, after.sel_s())),
        before.sel_w(),
        position(window_ids(before.windows_view()), before.sel_w()),
    )
    &&& after.sel_p() == resolved(
        pane_ids(panes_of(snapshot@, after.sel_s(), after.sel_w())),
        before.sel_p(),
        position(pane_ids(before.panes_view()), before.sel_p()),
    )
}

/// What `App::move_focus` does, as a relation between the app before and after it.
pub open spec fn move_focus_step(before: App, after: App, delta: i32) -> bool {
    &&& after.focus == column_at((column_index(before.focus) + delta) % 3)
    &&& after.snapshot == before.snapshot
    &&& after.selected_session == before.selected_session
    &&& after.selected_window == before.selected_window
    &&& after.selected_pane == before.selected_pane
    &&& after.mode == before.mode
    &&& after.toast == before.toast
    &&& after.should_quit == before.should_quit
}

/// What `App::move_selection` does, as a relation between the app before and after it.
pub open spec fn move_selection_step(before: App, after: App, delta: i32) -> bool {
    &&& after.same_but_selection(&before)
    &&& before.focus == Column::Sessions ==> {
        &&& after.sel_s() == shifted(session_ids(before.snapshot@.sessions), before.sel_s(), delta as int)
        &&& after.cascaded()
    }
    &&& before.focus == Column::Windows ==> {
        &&& after.selected_session == before.selected_session
        &&& after.sel_w() == shifted(window_ids(before.windows_view()), before.sel_w(), delta as int)
        &&& after.sel_p() == first_id(pane_ids(after.panes_view()))
    }
    &&& before.focus == Column::Panes ==> {
        &&& after.selected_session == before.selected_session
        &&& after.selected_window == before.selected_window
        &&& after.sel_p() == shifted(pane_ids(before.panes_view()), before.sel_p(), delta as int)
    }
}

/// What `App::jump_to_edge` does, as a relation between the app before and after it.
pub open spec fn jump_to_edge_step(before: App, after: App, top: bool) -> bool {
    &&& after.same_but_selection(&before)
    &&& before.focus == Column::Sessions ==> {
        &&& after.sel_s() == (if top {
            first_id(session_ids(before.snapshot@.sessions))
        } else {
            last_id(session_ids(before.snapshot@.sessions))
        })
        &&& after.cascaded()
    }
    &&& before.focus == Column::Windows ==> {
        &&& after.selected_session == before.selected_session
        &&& after.sel_w() == (if top {
            first_id(window_ids(before.windows_view()))
        } else {
            last_id(window_ids(before.windows_view()))
        })
        &&& after.sel_p() == first_id(pane_ids(after.panes_view()))
    }
    &&& before.focus == Column::Panes ==> {
        &&& after.selected_session == before.selected_session
        &&& after.selected_window == before.selected_window
        &&& after.sel_p() == (if top {
            first_id(pane_ids(before.panes_view()))
        } else {
            last_id(pane_ids(before.panes_view()))
        })
    }
}

/// What `App::open_new` does, as a relation between the app before and after it.
pub open spec fn open_new_step(before: App, after: App, home: &str, r: Option<TmuxAction>) -> bool {
    &&& before.focus == Column::Sessions ==> {
        &&& r is None
        &&& after.mode matches Mode::Input(o) && o.kind is NewSession && o.text@.len() == 0 && o.error is None
        &&& after.snapshot == before.snapshot
        &&& after.focus == before.focus
        &&& after.selected_session == before.selected_session
        &&& after.selected_window == before.selected_window
        &&& after.selected_pane == before.selected_pane
        &&& after.toast == before.toast
        &&& after.should_quit == before.should_quit
    }
    &&& before.focus != Column::Sessions ==> after == before
    &&& before.focus == Column::Windows ==> match before.sel_s() {
        None => r is None,
        Some(sid) => r matches Some(TmuxAction::NewWindow { session, cwd }) && session@ == sid
            && cwd@ == (match before.session_view() {
                Some(sv) => match active_path(sv) {
                    Some(p) => p,
                    None => home@,
                },
                None => home@,
            }),
    }
    &&& before.focus == Column::Panes ==> match before.sel_p() {
        None => r is None,
        Some(pid) => r matches Some(TmuxAction::SplitPane { pane, cwd }) && pane@ == pid
            && cwd@ == (match before.pane_view() {
                Some(pv) => pv.path,
                None => home@,
            }),
    }
}

/// What `App::open_rename` does, as a relation between the app before and after it.
pub open spec fn open_rename_step(before: App, after: App) -> bool {
    &&& after.snapshot == before.snapshot
    &&& after.focus == before.focus
    &&& after.selected_session == before.selected_session
    &&& after.selected_window == before.selected_window
    &&& after.selected_pane == before.selected_pane
    &&& after.toast == before.toast
    &&& after.should_quit == before.should_quit
    &&& before.focus == Column::Sessions ==> match before.session_view() {
        Some(sv) => after.mode matches Mode::Input(o) && o.kind matches InputKind::RenameSession(id) && id@ == sv.id && o.text@ == sv.name && o.error is None,
        None => after.mode == before.mode,
    }
    &&& before.focus == Column::Windows ==> match before.window_view() {
        Some(wv) => after.mode matches Mode::Input(o) && o.kind matches InputKind::RenameWindow(id) && id@ == wv.id && o.text@ == wv.name && o.error is None,
        None => after.mode == before.mode,
    }
    &&& before.focus == Column::Panes ==> match before.pane_view() {
        Some(pv) => after.mode matches Mode::Input(o) && o.kind matches InputKind::RenamePaneTitle(id) && id@ == pv.id && o.text@ == pv.title && o.error is None,
        None => after.mode == before.mode,
    }
}

/// What `App::open_kill_confirm` does, as a relation between the app before and after it.
pub open spec fn open_kill_confirm_step(before: App, after: App) -> bool {
    &&& after.same_but_mode(&before)
    &&& before.focus == Column::Sessions ==> match before.session_view() {
        Some(sv) => after.mode matches Mode::Confirm(o) && o.kind matches ConfirmKind::KillSession(id) && id@ == sv.id
            && o.message@ == kill_session_message(
                sv.name,
                before.snapshot@.sessions.len() == 1,
                before.snapshot@.client_session == Some(sv.id),
            ),
        None => after.mode == before.mode,
    }
    &&& before.focus == Column::Windows ==> match before.window_view() {
        Some(wv) => after.mode matches Mode::Confirm(o) && o.kind matches ConfirmKind::KillWindow(id) && id@ == wv.id
            && o.message@ == "kill window '"@ + wv.name + "'?"@,
        None => after.mode == before.mode,
    }
    &&& before.focus == Column::Panes ==> match before.pane_view() {
        Some(pv) => after.mode matches Mode::Confirm(o) && o.kind matches ConfirmKind::KillPane(id) && id@ == pv.id
            && o.message@ == "kill pane '"@ + pv.id + "'?"@,
        None => after.mode == before.mode,
    }
}

/// What `App::toggle_zoom` returns for `app`.
pub open spec fn toggle_zoom_result(app: App, r: Option<TmuxAction>) -> bool {
    &&& app.focus != Column::Panes ==> r is None
    &&& app.focus == Column::Panes ==> match app.sel_p() {
        Some(pid) => r matches Some(TmuxAction::ToggleZoom { pane }) && pane@ == pid,
        None => r is None,
    }
}

/// What `App::input_char` does, as a relation between the app before and after it.
pub open spec fn input_char_step(before: App, after: App, c: char) -> bool {
    &&& after.same_but_mode(&before)
    &&& before.mode matches Mode::Input(o) ==> (after.mode matches Mode::Input(n) && n.kind == o.kind && n.text@ == o.text@.push(c) && n.error is None)
    &&& !(before.mode is Input) ==> after.mode == before.mode
}

/// What `App::input_backspace` does, as a relation between the app before and after it.
pub open spec fn input_backspace_step(before: App, after: App) -> bool {
    &&& after.same_but_mode(&before)
    &&& before.mode matches Mode::Input(o) ==> (after.mode matches Mode::Input(n) && n.kind == o.kind && n.error is None
        && n.text@ == (if o.text@.len() > 0 { o.text@.drop_last() } else { o.text@ }))
    &&& !(before.mode is Input) ==> after.mode == before.mode
}

/// What `App::input_cancel` does, as a relation between the app before and after it.
pub open spec fn input_cancel_step(before: App, after: App) -> bool {
    &&& after.same_but_mode(&before)
    &&& after.mode is Normal
}

/// What `App::input_confirm` does, as a relation between the app before and after it.
pub open spec fn input_confirm_step(before: App, after: App, home: &str, r: Option<TmuxAction>) -> bool {
    &&& after.same_but_mode(&before)
    &&& !(before.mode is Input) ==> r is None && after.mode == before.mode
    &&& before.mode matches Mode::Input(o) ==> match input_check(o.kind, trimmed(o.text@), before.snapshot@.sessions) {
        Err(msg) => r is None && (after.mode matches Mode::Input(n) && n.kind == o.kind && n.text == o.text
            && (n.error matches Some(e) && e@ == msg)),
        Ok(()) => after.mode is Normal && (r matches Some(a) && input_action(o.kind, trimmed(o.text@), home@, a)),
    }
}

/// What `App::confirm_yes` does, as a relation between the app before and after it.
pub open spec fn confirm_yes_step(before: App, after: App, r: Option<TmuxAction>) -> bool {
    &&& after.same_but_mode(&before)
    &&& !(before.mode is Confirm) ==> r is None && after.mode == before.mode
    &&& before.mode matches Mode::Confirm(o) ==> after.mode is Normal && (r matches Some(a) && kill_action(o.kind, a))
}

/// What `App::confirm_no` does, as a relation between the app before and after it.
pub open spec fn confirm_no_step(before: App, after: App) -> bool {
    &&& after.same_but_mode(&before)
    &&& after.mode is Normal
}

/// What `App::activate` returns for `app`.
pub open spec fn activate_result(app: App, r: Option<TmuxAction>) -> bool {
    &&& app.focus == Column::Sessions ==> match app.sel_s() {
        Some(s) => r matches Some(TmuxAction::AttachSession { session }) && session@ == s,
        None => r is None,
    }
    &&& app.focus == Column::Windows ==> match (app.sel_s(), app.sel_w()) {
        (Some(s), Some(w)) => r matches Some(TmuxAction::JumpWindow { session, window }) && session@ == s && window@ == w,
        _ => r is None,
    }
    &&& app.focus == Column::Panes ==> match (app.sel_s(), app.sel_w(), app.sel_p()) {
        (Some(s), Some(w), Some(p)) => r matches Some(TmuxAction::JumpPane { session, window, pane }) && session@ == s && window@ == w && pane@ == p,
        _ => r is None,
    }
}

impl App {
    pub open spec fn sel_s(&self) -> Option<Seq<char>> {
        opt_session(self.selected_session)
    }

    pub open spec fn sel_w(&self) -> Option<Seq<char>> {
        opt_window(self.selected_window)
    }

    pub open spec fn sel_p(&self) -> Option<Seq<char>> {
        opt_pane(self.selected_pane)
    }

    pub open spec fn session_view(&self) -> Option<SessionView> {
        session_of(self.snapshot@, self.sel_s())
    }

    pub open spec fn windows_view(&self) -> Seq<WindowView> {
        windows_of(self.snapshot@, self.sel_s())
    }

    pub open spec fn window_view(&self) -> Option<WindowView> {
        window_of(self.snapshot@, self.sel_s(), self.sel_w())
    }

    pub open spec fn panes_view(&self) -> Seq<PaneView> {
        panes_of(self.snapshot@, self.sel_s(), self.sel_w())
    }

    /// The Miller-column cascade: the selected window is the first of the
    /// selected session, and the selected pane the first of the selected window.
    pub open spec fn cascaded(&self) -> bool {
        &&& self.sel_w() == first_id(window_ids(self.windows_view()))
        &&& self.sel_p() == first_id(pane_ids(self.panes_view()))
    }

    /// The selection is consistent: each selected id is a row of its column,
    /// and a column selects a row whenever it has one.
    pub open spec fn selection_consistent(&self) -> bool {
        &&& self.sel_s() is Some ==> session_ids(self.snapshot@.sessions).contains(self.sel_s().unwrap())
        &&& (self.sel_s() is None ==> self.snapshot@.sessions.len() == 0)
        &&& self.sel_w() is Some ==> window_ids(self.windows_view()).contains(self.sel_w().unwrap())
        &&& (self.sel_w() is None ==> self.windows_view().len() == 0)
        &&& self.sel_p() is Some ==> pane_ids(self.panes_view()).contains(self.sel_p().unwrap())
        &&& (self.sel_p() is None ==> self.panes_view().len() == 0)
    }

    /// The parts of the state that plain navigation never touches.
    pub open spec fn same_but_selection(&self, other: &App) -> bool {
        &&& self.snapshot == other.snapshot
        &&& self.focus == other.focus
        &&& self.should_quit == other.should_quit
        &&& self.mode == other.mode
        &&& self.toast == other.toast
    }

    /// The selected session.
    pub fn current_session(&self) -> (r: Option<&Session>)
        ensures
            match self.session_view() {
                Some(s) => r matches Some(x) && x@ == s,
                None => r is None,
            },
    {
        match &self.selected_session {
            Some(id) => self.snapshot.session(id),
            None => None,
        }
    }

    /// The selected window of the selected session.
    pub fn current_window(&self) -> (r: Option<&Window>)
        ensures
            match self.window_view() {
                Some(w) => r matches Some(x) && x@ == w,
                None => r is None,
            },
    {
        match self.current_session() {
            Some(s) => match &self.selected_window {
                Some(id) => s.window(id),
                None => None,
            },
            None => None,
        }
    }

    /// The windows column: the windows of the selected session.
    pub fn windows(&self) -> (r: &[Window])
        ensures
            view_windows(r@) == self.windows_view(),
    {
        match self.current_session() {
            Some(s) => s.windows.as_slice(),
            None => {
                let r: &[Window] = &[];
                assert(view_windows(r@) =~= seq![]);
                r
            },
        }
    }

    /// The panes column: the panes of the selected window.
    pub fn panes(&self) -> (r: &[Pane])
        ensures
            view_panes(r@) == self.panes_view(),
    {
        match self.current_window() {
            Some(w) => w.panes.as_slice(),
            None => {
                let r: &[Pane] = &[];
                assert(view_panes(r@) =~= seq![]);
                r
            },
        }
    }

    fn set_selected_window(&mut self, id: Option<WindowId>)
        ensures
            final(self).same_but_selection(old(self)),
            final(self).selected_session == old(self).selected_session,
            final(self).sel_w() == opt_window(id),
            final(self).sel_p() == first_id(pane_ids(final(self).panes_view())),
    {
        self.selected_window = id;
        let first_pane = match self.current_window() {
            Some(w) => if w.panes.len() > 0 {
                Some(w.panes[0].id.clone())
            } else {
                None
            },
            None => None,
        };
        self.selected_pane = first_pane;
    }

    fn set_selected_session(&mut self, id: Option<SessionId>)
        ensures
            final(self).same_but_selection(old(self)),
            final(self).sel_s() == opt_session(id),
            final(self).cascaded(),
    {
        self.selected_session = id;
        let first_window = match self.current_session() {
            Some(s) => if s.windows.len() > 0 {
                Some(s.windows[0].id.clone())
            } else {
                None
            },
            None => None,
        };
        self.set_selected_window(first_window);
    }

    /// A new app showing `snapshot`, with the first session (and, down the
    /// cascade, its first window and pane) selected.
    pub fn new(snapshot: Snapshot) -> (app: Self)
        ensures
            app.snapshot == snapshot,
            app.focus == Column::Sessions,
            !app.should_quit,
            app.mode is Normal,
            app.toast is None,
            app.sel_s() == first_id(session_ids(snapshot@.sessions)),
            app.cascaded(),
    {
        let first_session = if snapshot.sessions.len() > 0 {
            Some(snapshot.sessions[0].id.clone())
        } else {
            None
        };
        let mut app = App {
            snapshot,
            focus: Column::Sessions,
            selected_session: None,
            selected_window: None,
            selected_pane: None,
            should_quit: false,
            mode: Mode::Normal,
            toast: None,
        };
        app.set_selected_session(first_session);
        app
    }

    /// Moves focus `delta` columns, wrapping around at both ends.
    pub fn move_focus(&mut self, delta: i32)
        ensures
            move_focus_step(*old(self), *final(self), delta),
    {
        let idx: u64 = match self.focus {
            Column::Sessions => 0,
            Column::Windows => 1,
            Column::Panes => 2,
        };
        let new_idx: u64 = if delta >= 0 {
            let d = (delta as u64) % 3;
            (idx + d) % 3
        } else {
            let d = ((-(delta as i64)) as u64) % 3;
            (idx + 3 - d) % 3
        };
        proof {
            let i = idx as int;
            let dl = delta as int;
            if delta >= 0 {
                assert((i + dl % 3) % 3 == (i + dl) % 3) by (nonlinear_arith)
                    requires
                        dl >= 0,
                        0 <= i < 3,
                ;
            } else {
                assert((i + 3 - (-dl) % 3) % 3 == (i + dl) % 3) by (nonlinear_arith)
                    requires
                        dl < 0,
                        0 <= i < 3,
                ;
            }
        }
        self.focus = if new_idx == 0 {
            Column::Sessions
        } else if new_idx == 1 {
            Column::Windows
        } else {
            Column::Panes
        };
    }

    fn session_index(&self) -> (r: Option<usize>)
        ensures
            opt_int(r) == position(session_ids(self.snapshot@.sessions), self.sel_s()),
            match r {
                Some(i) => i < self.snapshot@.sessions.len(),
                None => true,
            },
    {
        proof {
            if self.sel_s() is Some {
                lemma_index_of_first(session_ids(self.snapshot@.sessions), self.sel_s().unwrap());
            }
        }
        match &self.selected_session {
            Some(id) => session_position(self.snapshot.sessions.as_slice(), id),
            None => None,
        }
    }

    fn window_index(&self) -> (r: Option<usize>)
        ensures
            opt_int(r) == position(window_ids(self.windows_view()), self.sel_w()),
            match r {
                Some(i) => i < self.windows_view().len(),
                None => true,
            },
    {
        proof {
            if self.sel_w() is Some {
                lemma_index_of_first(window_ids(self.windows_view()), self.sel_w().unwrap());
            }
        }
        match &self.selected_window {
            Some(id) => window_position(self.windows(), id),
            None => None,
        }
    }

    fn pane_index(&self) -> (r: Option<usize>)
        ensures
            opt_int(r) == position(pane_ids(self.panes_view()), self.sel_p()),
            match r {
                Some(i) => i < self.panes_view().len(),
                None => true,
            },
    {
        proof {
            if self.sel_p() is Some {
                lemma_index_of_first(pane_ids(self.panes_view()), self.sel_p().unwrap());
            }
        }
        match &self.selected_pane {
            Some(id) => pane_position(self.panes(), id),
            None => None,
        }
    }

    /// Moves the focused column's selection `delta` rows, clamped at the ends.
    /// A new session or window selection cascades to its first window and pane.
    pub fn move_selection(&mut self, delta: i32)
        ensures
            move_selection_step(*old(self), *final(self), delta),
    {
        match self.focus {
            Column::Sessions => {
                let cur = self.session_index();
                let len = self.snapshot.sessions.len();
                let next = match shift_index(len, cur, delta) {
                    Some(k) => Some(self.snapshot.sessions[k].id.clone()),
                    None => None,
                };
                self.set_selected_session(next);
            },
            Column::Windows => {
                let cur = self.window_index();
                let ws = self.windows();
                let next = match shift_index(ws.len(), cur, delta) {
                    Some(k) => Some(ws[k].id.clone()),
                    None => None,
                };
                self.set_selected_window(next);
            },
            Column::Panes => {
                let cur = self.pane_index();
                let ps = self.panes();
                let next = match shift_index(ps.len(), cur, delta) {
                    Some(k) => Some(ps[k].id.clone()),
                    None => None,
                };
                self.selected_pane = next;
            },
        }
    }

    /// Selects the first (`top`) or last row of the focused column, cascading
    /// as `move_selection` does.
    pub fn jump_to_edge(&mut self, top: bool)
        ensures
            jump_to_edge_step(*old(self), *final(self), top),
    {
        match self.focus {
            Column::Sessions => {
                let n = self.snapshot.sessions.len();
                let id = if n == 0 {
                    None
                } else if top {
                    Some(self.snapshot.sessions[0].id.clone())
                } else {
                    Some(self.snapshot.sessions[n - 1].id.clone())
                };
                self.set_selected_session(id);
            },
            Column::Windows => {
                let ws = self.windows();
                let n = ws.len();
                let id = if n == 0 {
                    None
                } else if top {
                    Some(ws[0].id.clone())
                } else {
                    Some(ws[n - 1].id.clone())
                };
                self.set_selected_window(id);
            },
            Column::Panes => {
                let ps = self.panes();
                let n = ps.len();
                let id = if n == 0 {
                    None
                } else if top {
                    Some(ps[0].id.clone())
                } else {
                    Some(ps[n - 1].id.clone())
                };
                self.selected_pane = id;
            },
        }
    }

    fn resolve_session(&mut self, prev: Option<SessionId>, prev_idx: Option<usize>)
        ensures
            final(self).same_but_selection(old(self)),
            final(self).selected_window == old(self).selected_window,
            final(self).selected_pane == old(self).selected_pane,
            final(self).sel_s() == resolved(session_ids(old(self).snapshot@.sessions), opt_session(prev), opt_int(prev_idx)),
    {
        let ghost ids = session_ids(self.snapshot@.sessions);
        proof {
            if opt_session(prev) is Some {
                lemma_index_of_first(ids, opt_session(prev).unwrap());
            }
        }
        let kept = match &prev {
            Some(id) => session_position(self.snapshot.sessions.as_slice(), id),
            None => None,
        };
        let n = self.snapshot.sessions.len();
        self.selected_session = if kept.is_some() {
            prev
        } else if n == 0 {
            None
        } else {
            Some(self.snapshot.sessions[refreshed_index(n, prev_idx)].id.clone())
        };
    }

    fn resolve_window(&mut self, prev: Option<WindowId>, prev_idx: Option<usize>)
        ensures
            final(self).same_but_selection(old(self)),
            final(self).selected_session == old(self).selected_session,
            final(self).selected_pane == old(self).selected_pane,
            final(self).sel_w() == resolved(window_ids(old(self).windows_view()), opt_window(prev), opt_int(prev_idx)),
    {
        let ghost ids = window_ids(self.windows_view());
        proof {
            if opt_window(prev) is Some {
                lemma_index_of_first(ids, opt_window(prev).unwrap());
            }
        }
        let ws = self.windows();
        let kept = match &prev {
            Some(id) => window_position(ws, id),
            None => None,
        };
        let n = ws.len();
        let next = if kept.is_some() {
            prev
        } else if n == 0 {
            None
        } else {
            Some(ws[refreshed_index(n, prev_idx)].id.clone())
        };
        self.selected_window = next;
    }

    fn resolve_pane(&mut self, prev: Option<PaneId>, prev_idx: Option<usize>)
        ensures
            final(self).same_but_selection(old(self)),
            final(self).selected_session == old(self).selected_session,
            final(self).selected_window == old(self).selected_window,
            final(self).sel_p() == resolved(pane_ids(old(self).panes_view()), opt_pane(prev), opt_int(prev_idx)),
    {
        let ghost ids = pane_ids(self.panes_view());
        proof {
            if opt_pane(prev) is Some {
                lemma_index_of_first(ids, opt_pane(prev).unwrap());
            }
        }
        let ps = self.panes();
        let kept = match &prev {
            Some(id) => pane_position(ps, id),
            None => None,
        };
        let n = ps.len();
        let next = if kept.is_some() {
            prev
        } else if n == 0 {
            None
        } else {
            Some(ps[refreshed_index(n, prev_idx)].id.clone())
        };
        self.selected_pane = next;
    }

    /// Replaces the model with a fresh snapshot and re-resolves the selection
    /// by id in each column in turn (session, then window, then pane): the
    /// same id if it is still there, else the row now at the old index
    /// (clamped), else the first row.
    pub fn apply_refresh(&mut self, snapshot: Snapshot)
        ensures
            apply_refresh_step(*old(self), *final(self), snapshot),
    {
        let prev_session_idx = self.session_index();
        let prev_window_idx = self.window_index();
        let prev_pane_idx = self.pane_index();
        let prev_session = match &self.selected_session {
            Some(id) => Some(id.clone()),
            None => None,
        };
        let prev_window = match &self.selected_window {
            Some(id) => Some(id.clone()),
            None => None,
        };
        let prev_pane = match &self.selected_pane {
            Some(id) => Some(id.clone()),
            None => None,
        };
        assert(opt_int(prev_session_idx) == position(session_ids(old(self).snapshot@.sessions), old(self).sel_s()));
        assert(opt_int(prev_window_idx) == position(window_ids(old(self).windows_view()), old(self).sel_w()));
        assert(opt_int(prev_pane_idx) == position(pane_ids(old(self).panes_view()), old(self).sel_p()));
        self.snapshot = snapshot;
        self.resolve_session(prev_session, prev_session_idx);
        self.resolve_window(prev_window, prev_window_idx);
        self.resolve_pane(prev_pane, prev_pane_idx);
    }

    /// The selected pane, looked up in the panes column.
    pub open spec fn pane_view(&self) -> Option<PaneView> {
        match self.sel_p() {
            Some(id) => find_pane(self.panes_view(), id),
            None => None,
        }
    }

    fn selected_pane_ref(&self) -> (r: Option<&Pane>)
        ensures
            match self.pane_view() {
                Some(p) => r matches Some(x) && x@ == p,
                None => r is None,
            },
    {
        match &self.selected_pane {
            Some(id) => {
                let ps = self.panes();
                proof {
                    lemma_index_of_first(pane_ids(self.panes_view()), id@);
                }
                match pane_position(ps, id) {
                    Some(i) => Some(&ps[i]),
                    None => None,
                }
            },
            None => None,
        }
    }

    /// `n`: contextual new. On the sessions column it opens an empty name
    /// input; on the windows column it asks for a new window in the selected
    /// session, starting where that session's active pane is (else `home`); on
    /// the panes column it asks to split the selected pane in its directory
    /// (else `home`).
    pub fn open_new(&mut self, home: &str) -> (r: Option<TmuxAction>)
        ensures
            open_new_step(*old(self), *final(self), home, r),
    {
        match self.focus {
            Column::Sessions => {
                proof {
                    reveal_strlit("");
                }
                self.mode = Mode::Input(InputOverlay::new(InputKind::NewSession, ""));
                None
            },
            Column::Windows => {
                let sid = match &self.selected_session {
                    Some(id) => id.clone(),
                    None => return None,
                };
                let cwd = match self.current_session() {
                    Some(s) => match active_pane_path(s) {
                        Some(p) => p.clone(),
                        None => String::from_str(home),
                    },
                    None => String::from_str(home),
                };
                Some(TmuxAction::NewWindow { session: sid, cwd })
            },
            Column::Panes => {
                let pid = match &self.selected_pane {
                    Some(id) => id.clone(),
                    None => return None,
                };
                let cwd = match self.selected_pane_ref() {
                    Some(p) => p.path.clone(),
                    None => String::from_str(home),
                };
                Some(TmuxAction::SplitPane { pane: pid, cwd })
            },
        }
    }

    /// `r`: rename the selected session, window or pane title, through an
    /// input overlay pre-filled with the current name (or title).
    pub fn open_rename(&mut self)
        ensures
            open_rename_step(*old(self), *final(self)),
    {
        match self.focus {
            Column::Sessions => {
                let overlay = match self.current_session() {
                    Some(session) => Some(InputOverlay::new(InputKind::RenameSession(session.id.clone()), session.name.as_str())),
                    None => None,
                };
                if let Some(o) = overlay {
                    self.mode = Mode::Input(o);
                }
            },
            Column::Windows => {
                let overlay = match self.current_window() {
                    Some(window) => Some(InputOverlay::new(InputKind::RenameWindow(window.id.clone()), window.name.as_str())),
                    None => None,
                };
                if let Some(o) = overlay {
                    self.mode = Mode::Input(o);
                }
            },
            Column::Panes => {
                let overlay = match self.selected_pane_ref() {
                    Some(pane) => Some(InputOverlay::new(InputKind::RenamePaneTitle(pane.id.clone()), pane.title.as_str())),
                    None => None,
                };
                if let Some(o) = overlay {
                    self.mode = Mode::Input(o);
                }
            },
        }
    }

    /// Everything but the mode is as in `other`.
    pub open spec fn same_but_mode(&self, other: &App) -> bool {
        &&& self.snapshot == other.snapshot
        &&& self.focus == other.focus
        &&& self.selected_session == other.selected_session
        &&& self.selected_window == other.selected_window
        &&& self.selected_pane == other.selected_pane
        &&& self.toast == other.toast
        &&& self.should_quit == other.should_quit
    }

    /// `x`: kill the selected session, window or pane, through a confirmation
    /// overlay. Session kills are worded more strongly when the session is the
    /// last one, or else the one this client is attached to.
    pub fn open_kill_confirm(&mut self)
        ensures
            open_kill_confirm_step(*old(self), *final(self)),
    {
        let overlay = match self.focus {
            Column::Sessions => match self.current_session() {
                Some(session) => {
                    let is_last = self.snapshot.sessions.len() == 1;
                    let is_attached = match &self.snapshot.client_session {
                        Some(c) => c.same(&session.id),
                        None => false,
                    };
                    let message = if is_last {
                        let mut m = String::from_str("kill '");
                        m.append(session.name.as_str());
                        m.append("' \u{2014} this is the last session, the tmux server will exit. kill?");
                        m
                    } else if is_attached {
                        let mut m = String::from_str("kill attached session '");
                        m.append(session.name.as_str());
                        m.append("'? (client will jump/detach)");
                        m
                    } else {
                        let mut m = String::from_str("kill session '");
                        m.append(session.name.as_str());
                        m.append("'?");
                        m
                    };
                    Some(ConfirmOverlay { kind: ConfirmKind::KillSession(session.id.clone()), message })
                },
                None => None,
            },
            Column::Windows => match self.current_window() {
                Some(window) => {
                    let mut m = String::from_str("kill window '");
                    m.append(window.name.as_str());
                    m.append("'?");
                    Some(ConfirmOverlay { kind: ConfirmKind::KillWindow(window.id.clone()), message: m })
                },
                None => None,
            },
            Column::Panes => match self.selected_pane_ref() {
                Some(pane) => {
                    let mut m = String::from_str("kill pane '");
                    m.append(pane.id.as_target());
                    m.append("'?");
                    Some(ConfirmOverlay { kind: ConfirmKind::KillPane(pane.id.clone()), message: m })
                },
                None => None,
            },
        };
        if let Some(o) = overlay {
            self.mode = Mode::Confirm(o);
        }
    }

    /// `z`: zoom toggle, pane column only.
    pub fn toggle_zoom(&self) -> (r: Option<TmuxAction>)
        ensures
            toggle_zoom_result(*self, r),
    {
        if self.focus != Column::Panes {
            return None;
        }
        match &self.selected_pane {
            Some(pid) => Some(TmuxAction::ToggleZoom { pane: pid.clone() }),
            None => None,
        }
    }

    /// Types a character into the open input overlay, if any.
    pub fn input_char(&mut self, c: char)
        ensures
            input_char_step(*old(self), *final(self), c),
    {
        if let Mode::Input(overlay) = &mut self.mode {
            overlay.push_char(c);
        }
    }

    /// Deletes the last character of the open input overlay, if any.
    pub fn input_backspace(&mut self)
        ensures
            input_backspace_step(*old(self), *final(self)),
    {
        if let Mode::Input(overlay) = &mut self.mode {
            overlay.backspace();
        }
    }

    /// Closes the input overlay without acting.
    pub fn input_cancel(&mut self)
        ensures
            input_cancel_step(*old(self), *final(self)),
    {
        self.mode = Mode::Normal;
    }

    /// Enter on an input overlay: the trimmed text is validated; an invalid
    /// one leaves the overlay open with the reason shown, a valid one closes
    /// it and asks for the action (a new session starts in `home`, also one
    /// that a dragged window or pane moves into).
    pub fn input_confirm(&mut self, home: &str) -> (r: Option<TmuxAction>)
        ensures
            input_confirm_step(*old(self), *final(self), home, r),
    {
        let (text, kind) = match &self.mode {
            Mode::Input(overlay) => (trim(overlay.text.as_str()), overlay.kind.clone()),
            _ => return None,
        };
        let validation = match &kind {
            InputKind::NewSession | InputKind::NewSessionFromDrag(_) => validate_session_name(text.as_str(), self.snapshot.sessions.as_slice(), None),
            InputKind::RenameSession(id) => validate_session_name(text.as_str(), self.snapshot.sessions.as_slice(), Some(id)),
            InputKind::RenameWindow(_) | InputKind::RenamePaneTitle(_) => validate_non_empty(text.as_str()),
        };
        if let Err(msg) = validation {
            if let Mode::Input(overlay) = &mut self.mode {
                overlay.error = Some(msg);
            }
            return None;
        }
        let action = match kind {
            InputKind::NewSession => TmuxAction::NewSession { name: text, cwd: String::from_str(home) },
            InputKind::RenameSession(id) => TmuxAction::RenameSession { session: id, name: text },
            InputKind::RenameWindow(id) => TmuxAction::RenameWindow { window: id, name: text },
            InputKind::RenamePaneTitle(id) => TmuxAction::SetPaneTitle { pane: id, title: text },
            InputKind::NewSessionFromDrag(DragItem::Window(window)) => TmuxAction::WindowToNewSession {
                window,
                name: text,
                cwd: String::from_str(home),
            },
            InputKind::NewSessionFromDrag(DragItem::Pane(pane)) => TmuxAction::PaneToNewSession {
                pane,
                name: text,
                cwd: String::from_str(home),
            },
        };
        self.mode = Mode::Normal;
        Some(action)
    }

    /// `y` on the kill confirmation: closes it and asks for the kill.
    pub fn confirm_yes(&mut self) -> (r: Option<TmuxAction>)
        ensures
            confirm_yes_step(*old(self), *final(self), r),
    {
        let kind = match &self.mode {
            Mode::Confirm(overlay) => overlay.kind.clone(),
            _ => return None,
        };
        self.mode = Mode::Normal;
        let action = match kind {
            ConfirmKind::KillSession(id) => TmuxAction::KillSession { session: id },
            ConfirmKind::KillWindow(id) => TmuxAction::KillWindow { window: id },
            ConfirmKind::KillPane(id) => TmuxAction::KillPane { pane: id },
        };
        Some(action)
    }

    /// `n`/Esc on the kill confirmation: closes it without acting.
    pub fn confirm_no(&mut self)
        ensures
            confirm_no_step(*old(self), *final(self)),
    {
        self.mode = Mode::Normal;
    }

    /// Enter: attach/jump to whatever is selected in the focused column.
    pub fn activate(&self) -> (r: Option<TmuxAction>)
        ensures
            activate_result(*self, r),
    {
        match self.focus {
            Column::Sessions => match &self.selected_session {
                Some(sid) => Some(TmuxAction::AttachSession { session: sid.clone() }),
                None => None,
            },
            Column::Windows => match (&self.selected_session, &self.selected_window) {
                (Some(sid), Some(wid)) => Some(TmuxAction::JumpWindow { session: sid.clone(), window: wid.clone() }),
                _ => None,
            },
            Column::Panes => match (&self.selected_session, &self.selected_window, &self.selected_pane) {
                (Some(sid), Some(wid), Some(pid)) => Some(TmuxAction::JumpPane { session: sid.clone(), window: wid.clone(), pane: pid.clone() }),
                _ => None,
            },
        }
    }

    /// The outcome of the jump asked for by `activate`: on success the popup
    /// should close; a failure is swallowed.
    pub fn activate_done(&mut self, result: &Result<(), ActionError>)
        ensures
            final(self).should_quit == (old(self).should_quit || result is Ok),
            final(self).snapshot == old(self).snapshot,
            final(self).focus == old(self).focus,
            final(self).selected_session == old(self).selected_session,
            final(self).selected_window == old(self).selected_window,
            final(self).selected_pane == old(self).selected_pane,
            final(self).mode == old(self).mode,
            final(self).toast == old(self).toast,
    {
        if result.is_ok() {
            self.should_quit = true;
        }
    }

    /// The outcome of a mutation: a failure is shown as an error toast with
    /// tmux's message. (The caller then refreshes the snapshot either way.)
    pub fn report(&mut self, result: Result<(), ActionError>)
        ensures
            final(self).same_but_toast(old(self)),
            result is Ok ==> final(self).toast == old(self).toast,
            result matches Err(e) ==> (final(self).toast matches Some(t) && t.reports_error()
                && t.text() == crate::tmux::actions::action_error_message(e.command@, e.stderr@)),
    {
        if let Err(e) = result {
            self.toast = Some(Toast::error(e.message()));
        }
    }

    /// Everything but the toast is as in `other`.
    pub open spec fn same_but_toast(&self, other: &App) -> bool {
        &&& self.snapshot == other.snapshot
        &&& self.focus == other.focus
        &&& self.selected_session == other.selected_session
        &&& self.selected_window == other.selected_window
        &&& self.selected_pane == other.selected_pane
        &&& self.mode == other.mode
        &&& self.should_quit == other.should_quit
    }

    /// Clears an expired toast; call once per loop iteration before drawing.
    /// Whether it has expired depends on the clock (`Toast::expired`); the
    /// clearing itself is `clear_toast_if`.
    pub fn expire_toast(&mut self)
        ensures
            final(self).same_but_toast(old(self)),
            final(self).toast is None || final(self).toast == old(self).toast,
    {
        let expired = match &self.toast {
            Some(t) => t.expired(),
            None => false,
        };
        self.clear_toast_if(expired);
    }

    /// Clears the toast when it has `expired`; otherwise changes nothing.
    pub fn clear_toast_if(&mut self, expired: bool)
        ensures
            final(self).same_but_toast(old(self)),
            final(self).toast == (if expired {
                None
            } else {
                old(self).toast
            }),
    {
        if expired {
            self.toast = None;
        }
    }
}

// ---------------------------------------------------------------------------
// Laws of navigation

/// Moving the selection never leaves its column: the result is a row of the
/// column, and there is none only when the column is empty.
pub proof fn law_shift_stays_in_column(ids: Seq<Seq<char>>, cur: Option<Seq<char>>, delta: int)
    ensures
        shifted(ids, cur, delta) is None <==> ids.len() == 0,
        shifted(ids, cur, delta) matches Some(x) ==> ids.contains(x),
{
    if ids.len() > 0 {
        if cur is Some {
            lemma_index_of_first(ids, cur.unwrap());
        }
        let idx = match cur {
            Some(c) => match ids.index_of_first(c) {
                Some(i) => clamp(i + delta, 0, ids.len() - 1),
                None => 0,
            },
            None => 0,
        };
        assert(ids[idx] == shifted(ids, cur, delta).unwrap());
    }
}

/// A refresh never leaves a column's selection dangling: it keeps an id that
/// is still present, and otherwise picks a row of the column (none only when
/// the column is empty).
pub proof fn law_resolved_stays_in_column(ids: Seq<Seq<char>>, prev: Option<Seq<char>>, prev_index: Option<int>)
    requires
        prev_index matches Some(i) ==> i >= 0,
    ensures
        resolved(ids, prev, prev_index) is None <==> ids.len() == 0,
        resolved(ids, prev, prev_index) matches Some(x) ==> ids.contains(x),
        prev matches Some(p) && ids.contains(p) ==> resolved(ids, prev, prev_index) == prev,
{
    if !(prev is Some && ids.contains(prev.unwrap())) && ids.len() > 0 {
        let i = match prev_index {
            Some(i) => i,
            None => 0,
        };
        let k = if i < ids.len() - 1 { i } else { ids.len() - 1 };
        assert(ids[k] == resolved(ids, prev, prev_index).unwrap());
    }
}

/// After a refresh the selection is consistent in all three columns, whatever
/// the previous selection was.
pub proof fn law_refresh_leaves_consistent_selection(
    a: App,
    prev_s: Option<Seq<char>>,
    prev_w: Option<Seq<char>>,
    prev_p: Option<Seq<char>>,
    is: Option<int>,
    iw: Option<int>,
    ip: Option<int>,
)
    requires
        is matches Some(i) ==> i >= 0,
        iw matches Some(i) ==> i >= 0,
        ip matches Some(i) ==> i >= 0,
        a.sel_s() == resolved(session_ids(a.snapshot@.sessions), prev_s, is),
        a.sel_w() == resolved(window_ids(a.windows_view()), prev_w, iw),
        a.sel_p() == resolved(pane_ids(a.panes_view()), prev_p, ip),
    ensures
        a.selection_consistent(),
{
    law_resolved_stays_in_column(session_ids(a.snapshot@.sessions), prev_s, is);
    law_resolved_stays_in_column(window_ids(a.windows_view()), prev_w, iw);
    law_resolved_stays_in_column(pane_ids(a.panes_view()), prev_p, ip);
}

/// Following the cascade (first window of the selected session, first pane of
/// that window) gives a consistent selection, as long as the session is one of
/// the snapshot's, or there are no sessions at all.
pub proof fn law_cascade_is_consistent(a: App)
    requires
        a.cascaded(),
        a.sel_s() is Some ==> session_ids(a.snapshot@.sessions).contains(a.sel_s().unwrap()),
        a.sel_s() is None ==> a.snapshot@.sessions.len() == 0,
    ensures
        a.selection_consistent(),
{
    let ws = a.windows_view();
    if ws.len() > 0 {
        let wids = window_ids(ws);
        assert(wids[0] == ws[0].id);
        crate::model::lemma_first_index(wids, wids[0], 0);
        assert(a.window_view() == Some(ws[0]));
    }
    let ps = a.panes_view();
    if ps.len() > 0 {
        assert(pane_ids(ps)[0] == ps[0].id);
    }
}

/// Moving focus by `d` and then by `-d` returns to the starting column, and
/// moving by three columns is a full turn.
pub proof fn law_focus_round_trip(c: Column, d: int)
    ensures
        column_at((column_index(column_at((column_index(c) + d) % 3)) - d) % 3) == c,
        column_at((column_index(c) + 3) % 3) == c,
{
    let i = column_index(c);
    let j = (i + d) % 3;
    assert(0 <= j < 3);
    assert(column_index(column_at(j)) == j);
    assert((j - d) % 3 == i) by (nonlinear_arith)
        requires
            j == (i + d) % 3,
            0 <= i < 3,
    ;
}

/// Renaming a session to its own current name passes the duplicate check, but
/// a new session may not take the name of an existing one.
pub proof fn law_session_name_uniqueness(ss: Seq<SessionView>, k: int)
    requires
        0 <= k < ss.len(),
        ss[k].name.len() > 0,
        !ss[k].name.contains(':') && !ss[k].name.contains('.'),
        session_ids(ss).no_duplicates(),
    ensures
        session_name_check(ss[k].name, ss, None) is Err,
        session_name_check(ss[k].name, ss, Some(ss[k].id)) == (if exists|i: int| 0 <= i < ss.len() && i != k && ss[i].name == ss[k].name {
            Err::<(), Seq<char>>("session '"@ + ss[k].name + "' already exists"@)
        } else {
            Ok(())
        }),
{
    assert(ss[k].name == ss[k].name && Some(ss[k].id) != None::<Seq<char>>);
    if exists|i: int| 0 <= i < ss.len() && i != k && ss[i].name == ss[k].name {
        let i = choose|i: int| 0 <= i < ss.len() && i != k && ss[i].name == ss[k].name;
        assert(session_ids(ss)[i] != session_ids(ss)[k]);
        assert(Some(ss[i].id) != Some(ss[k].id));
    } else {
        assert forall|i: int| 0 <= i < ss.len() implies !(ss[i].name == ss[k].name && Some(ss[i].id) != Some(ss[k].id)) by {
            if i != k {
                assert(ss[i].name != ss[k].name);
            }
        }
    }
}

/// The first and the last row of a column are rows of it, and there are
/// none only when the column is empty.
proof fn lemma_edges_stay_in_column(ids: Seq<Seq<char>>)
    ensures
        first_id(ids) is None <==> ids.len() == 0,
        first_id(ids) matches Some(x) ==> ids.contains(x),
        last_id(ids) is None <==> ids.len() == 0,
        last_id(ids) matches Some(x) ==> ids.contains(x),
{
    if ids.len() > 0 {
        assert(ids[0] == first_id(ids).unwrap());
        assert(ids[ids.len() - 1] == last_id(ids).unwrap());
    }
}

/// A freshly opened app has a consistent selection.
pub proof fn law_new_selection_is_consistent(a: App)
    requires
        a.sel_s() == first_id(session_ids(a.snapshot@.sessions)),
        a.cascaded(),
    ensures
        a.selection_consistent(),
{
    lemma_edges_stay_in_column(session_ids(a.snapshot@.sessions));
    law_cascade_is_consistent(a);
}

/// Navigation keeps a consistent selection consistent: moving the selection,
/// jumping to an edge of the focused column, and moving focus.
pub proof fn law_navigation_keeps_selection_consistent(
    before: App,
    after: App,
    delta: i32,
    top: bool,
)
    requires
        before.selection_consistent(),
    ensures
        move_selection_step(before, after, delta) ==> after.selection_consistent(),
        jump_to_edge_step(before, after, top) ==> after.selection_consistent(),
        move_focus_step(before, after, delta) ==> after.selection_consistent(),
{
    let sids = session_ids(before.snapshot@.sessions);
    let wids = window_ids(before.windows_view());
    let pids = pane_ids(before.panes_view());
    law_shift_stays_in_column(sids, before.sel_s(), delta as int);
    law_shift_stays_in_column(wids, before.sel_w(), delta as int);
    law_shift_stays_in_column(pids, before.sel_p(), delta as int);
    lemma_edges_stay_in_column(sids);
    lemma_edges_stay_in_column(wids);
    lemma_edges_stay_in_column(pids);
    if move_selection_step(before, after, delta) || jump_to_edge_step(before, after, top) {
        lemma_edges_stay_in_column(pane_ids(after.panes_view()));
        if before.focus == Column::Sessions {
            law_cascade_is_consistent(after);
        }
    }
}

/// Refreshing with the snapshot already shown (or a copy of it: `Snapshot`'s
/// `clone` keeps the view) leaves a consistent selection as it is.
pub proof fn law_refresh_with_same_snapshot_keeps_selection(
    before: App,
    after: App,
    snapshot: Snapshot,
)
    requires
        before.selection_consistent(),
        apply_refresh_step(before, after, snapshot),
        snapshot@ == before.snapshot@,
    ensures
        after.sel_s() == before.sel_s(),
        after.sel_w() == before.sel_w(),
        after.sel_p() == before.sel_p(),
{
    let sids = session_ids(before.snapshot@.sessions);
    let wids = window_ids(before.windows_view());
    let pids = pane_ids(before.panes_view());
    lemma_index_of_first(sids, before.sel_s().unwrap_or(seq![]));
    lemma_index_of_first(wids, before.sel_w().unwrap_or(seq![]));
    lemma_index_of_first(pids, before.sel_p().unwrap_or(seq![]));
    law_resolved_stays_in_column(sids, before.sel_s(), position(sids, before.sel_s()));
    assert(after.sel_s() == before.sel_s());
    law_resolved_stays_in_column(wids, before.sel_w(), position(wids, before.sel_w()));
    assert(after.sel_w() == before.sel_w());
    law_resolved_stays_in_column(pids, before.sel_p(), position(pids, before.sel_p()));
}

/// Whatever the app showed before, a refresh leaves its selection consistent
/// with the new snapshot.
pub proof fn law_refresh_step_is_consistent(before: App, after: App, snapshot: Snapshot)
    requires
        apply_refresh_step(before, after, snapshot),
    ensures
        after.selection_consistent(),
{
    let sids = session_ids(before.snapshot@.sessions);
    let wids = window_ids(before.windows_view());
    let pids = pane_ids(before.panes_view());
    lemma_index_of_first(sids, before.sel_s().unwrap_or(seq![]));
    lemma_index_of_first(wids, before.sel_w().unwrap_or(seq![]));
    lemma_index_of_first(pids, before.sel_p().unwrap_or(seq![]));
    law_refresh_leaves_consistent_selection(
        after,
        before.sel_s(),
        before.sel_w(),
        before.sel_p(),
        position(sids, before.sel_s()),
        position(wids, before.sel_w()),
        position(pids, before.sel_p()),
    );
}

} // verus!
