//! The in-memory tree of sessions, windows and panes that both the snapshot
//! parser and the UI operate on, with its mathematical view.
use vstd::prelude::*;

use crate::tmux::ids::{PaneId, SessionId, WindowId};

verus! {

#[derive(Debug, Clone, Copy, Default, PartialEq, Eq, Structural)]
pub struct Totals {
    pub sessions: usize,
    pub windows: usize,
    pub panes: usize,
}

#[derive(Debug)]
pub struct Pane {
    pub id: PaneId,
    pub index: u32,
    pub active: bool,
    pub command: String,
    pub path: String,
    pub title: String,
    pub zoomed: bool,
}

#[derive(Debug)]
pub struct Window {
    pub id: WindowId,
    pub index: u32,
    pub name: String,
    pub active: bool,
    /// Raw `#{window_layout}`, captured for completeness.
    pub layout: String,
    pub panes: Vec<Pane>,
}

#[derive(Debug)]
pub struct Session {
    pub id: SessionId,
    pub name: String,
    pub attached: bool,
    pub windows: Vec<Window>,
}

#[derive(Debug)]
pub struct Snapshot {
    pub sessions: Vec<Session>,
    /// Session this popup's client is attached to, if any.
    pub client_session: Option<SessionId>,
    pub totals: Totals,
}

#[verifier::ext_equal]
pub struct PaneView {
    pub id: Seq<char>,
    pub index: u32,
    pub active: bool,
    pub command: Seq<char>,
    pub path: Seq<char>,
    pub title: Seq<char>,
    pub zoomed: bool,
}

#[verifier::ext_equal]
pub struct WindowView {
    pub id: Seq<char>,
    pub index: u32,
    pub name: Seq<char>,
    pub active: bool,
    pub layout: Seq<char>,
    pub panes: Seq<PaneView>,
}

#[verifier::ext_equal]
pub struct SessionView {
    pub id: Seq<char>,
    pub name: Seq<char>,
    pub attached: bool,
    pub windows: Seq<WindowView>,
}

#[verifier::ext_equal]
pub struct SnapshotView {
    pub sessions: Seq<SessionView>,
    pub client_session: Option<Seq<char>>,
    pub totals: Totals,
}

impl View for Pane {
    type V = PaneView;

    open spec fn view(&self) -> PaneView {
        PaneView {
            id: self.id@,
            index: self.index,
            active: self.active,
            command: self.command@,
            path: self.path@,
            title: self.title@,
            zoomed: self.zoomed,
        }
    }
}

impl View for Window {
    type V = WindowView;

    open spec fn view(&self) -> WindowView {
        WindowView {
            id: self.id@,
            index: self.index,
            name: self.name@,
            active: self.active,
            layout: self.layout@,
            panes: view_panes(self.panes@),
        }
    }
}

impl View for Session {
    type V = SessionView;

    open spec fn view(&self) -> SessionView {
        SessionView {
            id: self.id@,
            name: self.name@,
            attached: self.attached,
            windows: view_windows(self.windows@),
        }
    }
}

pub open spec fn view_panes(ps: Seq<Pane>) -> Seq<PaneView> {
    Seq::new(ps.len(), |i: int| ps[i]@)
}

pub open spec fn view_windows(ws: Seq<Window>) -> Seq<WindowView> {
    Seq::new(ws.len(), |i: int| ws[i]@)
}

pub open spec fn view_sessions(ss: Seq<Session>) -> Seq<SessionView> {
    Seq::new(ss.len(), |i: int| ss[i]@)
}

pub open spec fn opt_id_view(id: Option<SessionId>) -> Option<Seq<char>> {
    match id {
        Some(i) => Some(i@),
        None => None,
    }
}

impl View for Snapshot {
    type V = SnapshotView;

    open spec fn view(&self) -> SnapshotView {
        SnapshotView {
            sessions: view_sessions(self.sessions@),
            client_session: opt_id_view(self.client_session),
            totals: self.totals,
        }
    }
}

pub open spec fn session_ids(ss: Seq<SessionView>) -> Seq<Seq<char>> {
    Seq::new(ss.len(), |i: int| ss[i].id)
}

pub open spec fn window_ids(ws: Seq<WindowView>) -> Seq<Seq<char>> {
    Seq::new(ws.len(), |i: int| ws[i].id)
}

pub open spec fn pane_ids(ps: Seq<PaneView>) -> Seq<Seq<char>> {
    Seq::new(ps.len(), |i: int| ps[i].id)
}

/// `i` is the first position at which `id` occurs in `ids`.
pub open spec fn is_first_index(ids: Seq<Seq<char>>, id: Seq<char>, i: int) -> bool {
    &&& 0 <= i < ids.len()
    &&& ids[i] == id
    &&& forall|j: int| 0 <= j < i ==> ids[j] != id
}

pub proof fn lemma_first_index(ids: Seq<Seq<char>>, id: Seq<char>, i: int)
    requires
        is_first_index(ids, id, i),
    ensures
        ids.index_of_first(id) == Some(i),
{
    ids.index_of_first_ensures(id);
}

pub proof fn lemma_no_index(ids: Seq<Seq<char>>, id: Seq<char>)
    requires
        forall|j: int| 0 <= j < ids.len() ==> ids[j] != id,
    ensures
        ids.index_of_first(id) == None::<int>,
{
    ids.index_of_first_ensures(id);
}

pub proof fn lemma_index_of_first(ids: Seq<Seq<char>>, id: Seq<char>)
    ensures
        match ids.index_of_first(id) {
            Some(i) => is_first_index(ids, id, i),
            None => forall|j: int| 0 <= j < ids.len() ==> ids[j] != id,
        },
{
    ids.index_of_first_ensures(id);
}

/// The session of `ss` whose id is `id`, if there is one (the first, should
/// there be several).
pub open spec fn find_session(ss: Seq<SessionView>, id: Seq<char>) -> Option<SessionView> {
    match session_ids(ss).index_of_first(id) {
        Some(i) => Some(ss[i]),
        None => None,
    }
}

pub open spec fn find_window(ws: Seq<WindowView>, id: Seq<char>) -> Option<WindowView> {
    match window_ids(ws).index_of_first(id) {
        Some(i) => Some(ws[i]),
        None => None,
    }
}

pub open spec fn find_pane(ps: Seq<PaneView>, id: Seq<char>) -> Option<PaneView> {
    match pane_ids(ps).index_of_first(id) {
        Some(i) => Some(ps[i]),
        None => None,
    }
}

/// Position of the first session of `sessions` whose id is `id`.
pub fn session_position(sessions: &[Session], id: &SessionId) -> (r: Option<usize>)
    ensures
        match r {
            Some(i) => session_ids(view_sessions(sessions@)).index_of_first(id@) == Some(i as int),
            None => session_ids(view_sessions(sessions@)).index_of_first(id@) is None,
        },
{
    let ghost ids = session_ids(view_sessions(sessions@));
    let mut i: usize = 0;
    while i < sessions.len()
        invariant
            0 <= i <= sessions@.len(),
            ids == session_ids(view_sessions(sessions@)),
            forall|j: int| 0 <= j < i ==> ids[j] != id@,
        decreases sessions.len() - i,
    {
        if sessions[i].id.same(id) {
            proof {
                lemma_first_index(ids, id@, i as int);
            }
            return Some(i);
        }
        i = i + 1;
    }
    proof {
        lemma_no_index(ids, id@);
    }
    None
}

/// Position of the first window of `windows` whose id is `id`.
pub fn window_position(windows: &[Window], id: &WindowId) -> (r: Option<usize>)
    ensures
        match r {
            Some(i) => window_ids(view_windows(windows@)).index_of_first(id@) == Some(i as int),
            None => window_ids(view_windows(windows@)).index_of_first(id@) is None,
        },
{
    let ghost ids = window_ids(view_windows(windows@));
    let mut i: usize = 0;
    while i < windows.len()
        invariant
            0 <= i <= windows@.len(),
            ids == window_ids(view_windows(windows@)),
            forall|j: int| 0 <= j < i ==> ids[j] != id@,
        decreases windows.len() - i,
    {
        if windows[i].id.same(id) {
            proof {
                lemma_first_index(ids, id@, i as int);
            }
            return Some(i);
        }
        i = i + 1;
    }
    proof {
        lemma_no_index(ids, id@);
    }
    None
}

/// Position of the first pane of `panes` whose id is `id`.
pub fn pane_position(panes: &[Pane], id: &PaneId) -> (r: Option<usize>)
    ensures
        match r {
            Some(i) => pane_ids(view_panes(panes@)).index_of_first(id@) == Some(i as int),
            None => pane_ids(view_panes(panes@)).index_of_first(id@) is None,
        },
{
    let ghost ids = pane_ids(view_panes(panes@));
    let mut i: usize = 0;
    while i < panes.len()
        invariant
            0 <= i <= panes@.len(),
            ids == pane_ids(view_panes(panes@)),
            forall|j: int| 0 <= j < i ==> ids[j] != id@,
        decreases panes.len() - i,
    {
        if panes[i].id.same(id) {
            proof {
                lemma_first_index(ids, id@, i as int);
            }
            return Some(i);
        }
        i = i + 1;
    }
    proof {
        lemma_no_index(ids, id@);
    }
    None
}

impl Clone for Pane {
    /// A copy with the same view.
    fn clone(&self) -> (c: Self)
        ensures
            c@ == self@,
    {
        Pane {
            id: self.id.clone(),
            index: self.index,
            active: self.active,
            command: self.command.clone(),
            path: self.path.clone(),
            title: self.title.clone(),
            zoomed: self.zoomed,
        }
    }
}

impl Clone for Window {
    /// A copy with the same view.
    fn clone(&self) -> (c: Self)
        ensures
            c@ == self@,
    {
        let mut panes: Vec<Pane> = Vec::new();
        let mut i: usize = 0;
        while i < self.panes.len()
            invariant
                0 <= i <= self.panes@.len(),
                view_panes(panes@) == view_panes(self.panes@).take(i as int),
            decreases self.panes.len() - i,
        {
            let item = self.panes[i].clone();
            assert(item@ == self.panes@[i as int]@);
            let ghost before = panes@;
            panes.push(item);
            assert(view_panes(panes@) =~= view_panes(before).push(self.panes@[i as int]@));
            assert(view_panes(self.panes@).take(i + 1) =~= view_panes(self.panes@).take(i as int).push(
                self.panes@[i as int]@,
            ));
            i = i + 1;
        }
        assert(view_panes(self.panes@).take(self.panes@.len() as int) =~= view_panes(self.panes@));
        let c = Window {
            id: self.id.clone(),
            index: self.index,
            name: self.name.clone(),
            active: self.active,
            layout: self.layout.clone(),
            panes,
        };
        assert(c@ =~~= self@);
        c
    }
}

impl Clone for Session {
    /// A copy with the same view.
    fn clone(&self) -> (c: Self)
        ensures
            c@ == self@,
    {
        let mut windows: Vec<Window> = Vec::new();
        let mut i: usize = 0;
        while i < self.windows.len()
            invariant
                0 <= i <= self.windows@.len(),
                view_windows(windows@) == view_windows(self.windows@).take(i as int),
            decreases self.windows.len() - i,
        {
            let item = self.windows[i].clone();
            assert(item@ == self.windows@[i as int]@);
            let ghost before = windows@;
            windows.push(item);
            assert(view_windows(windows@) =~= view_windows(before).push(self.windows@[i as int]@));
            assert(view_windows(self.windows@).take(i + 1) =~= view_windows(self.windows@).take(i as int).push(
                self.windows@[i as int]@,
            ));
            i = i + 1;
        }
        assert(view_windows(self.windows@).take(self.windows@.len() as int) =~= view_windows(
            self.windows@,
        ));
        let c = Session {
            id: self.id.clone(),
            name: self.name.clone(),
            attached: self.attached,
            windows,
        };
        assert(c@ =~~= self@);
        c
    }
}

impl Clone for Snapshot {
    /// A copy with the same view.
    fn clone(&self) -> (c: Self)
        ensures
            c@ == self@,
    {
        let mut sessions: Vec<Session> = Vec::new();
        let mut i: usize = 0;
        while i < self.sessions.len()
            invariant
                0 <= i <= self.sessions@.len(),
                view_sessions(sessions@) == view_sessions(self.sessions@).take(i as int),
            decreases self.sessions.len() - i,
        {
            let item = self.sessions[i].clone();
            assert(item@ == self.sessions@[i as int]@);
            let ghost before = sessions@;
            sessions.push(item);
            assert(view_sessions(sessions@) =~= view_sessions(before).push(self.sessions@[i as int]@));
            assert(view_sessions(self.sessions@).take(i + 1) =~= view_sessions(self.sessions@).take(i as int).push(
                self.sessions@[i as int]@,
            ));
            i = i + 1;
        }
        assert(view_sessions(self.sessions@).take(self.sessions@.len() as int) =~= view_sessions(
            self.sessions@,
        ));
        let client_session = match &self.client_session {
            Some(id) => Some(id.clone()),
            None => None,
        };
        let c = Snapshot { sessions, client_session, totals: self.totals };
        assert(c@ =~~= self@);
        c
    }
}

impl Snapshot {
    /// The session with id `id`.
    pub fn session(&self, id: &SessionId) -> (r: Option<&Session>)
        ensures
            match find_session(self@.sessions, id@) {
                Some(s) => r matches Some(x) && x@ == s,
                None => r is None,
            },
    {
        proof {
            lemma_index_of_first(session_ids(self@.sessions), id@);
        }
        match session_position(self.sessions.as_slice(), id) {
            Some(i) => {
                Some(&self.sessions[i])
            },
            None => None,
        }
    }
}

impl Session {
    /// The window of this session with id `id`.
    pub fn window(&self, id: &WindowId) -> (r: Option<&Window>)
        ensures
            match find_window(self@.windows, id@) {
                Some(w) => r matches Some(x) && x@ == w,
                None => r is None,
            },
    {
        proof {
            lemma_index_of_first(window_ids(self@.windows), id@);
        }
        match window_position(self.windows.as_slice(), id) {
            Some(i) => Some(&self.windows[i]),
            None => None,
        }
    }
}

} // verus!
