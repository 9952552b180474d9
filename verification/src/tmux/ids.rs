//! Stable tmux identities: `$n` sessions, `@n` windows, `%n` panes.
use vstd::prelude::*;

verus! {

/// A tmux session id such as `$3`, kept with its `$` prefix so it can be
/// handed to `-t` as is.
#[derive(Debug)]
pub struct SessionId(String);

impl View for SessionId {
    type V = Seq<char>;

    closed spec fn view(&self) -> Seq<char> {
        self.0@
    }
}

impl SessionId {
    /// `raw` must already include the `$` prefix (e.g. `"$3"`).
    pub fn new(raw: &str) -> (id: Self)
        ensures
            id@ == raw@,
    {
        SessionId(raw.to_owned())
    }

    /// The tmux target string for this id, suitable for `-t` arguments.
    pub fn as_target(&self) -> (t: &str)
        ensures
            t@ == self@,
    {
        self.0.as_str()
    }

    /// The id's text, as its display form shows it.
    pub fn to_string(&self) -> (t: String)
        ensures
            t@ == self@,
    {
        self.0.clone()
    }

    /// Whether both ids name the same session.
    pub fn same(&self, other: &SessionId) -> (b: bool)
        ensures
            b == (self@ == other@),
    {
        self.0 == other.0
    }
}

impl Clone for SessionId {
    fn clone(&self) -> (c: Self)
        ensures
            c@ == self@,
    {
        SessionId(self.0.clone())
    }
}

impl PartialEq for SessionId {
    fn eq(&self, other: &Self) -> (b: bool) {
        self.0 == other.0
    }
}

impl vstd::std_specs::cmp::PartialEqSpecImpl for SessionId {
    open spec fn obeys_eq_spec() -> bool {
        true
    }

    open spec fn eq_spec(&self, other: &Self) -> bool {
        self@ == other@
    }
}

impl Eq for SessionId {}

/// A tmux window id such as `@12`, kept with its `@` prefix so it can be
/// handed to `-t` as is.
#[derive(Debug)]
pub struct WindowId(String);

impl View for WindowId {
    type V = Seq<char>;

    closed spec fn view(&self) -> Seq<char> {
        self.0@
    }
}

impl WindowId {
    /// `raw` must already include the `@` prefix (e.g. `"@12"`).
    pub fn new(raw: &str) -> (id: Self)
        ensures
            id@ == raw@,
    {
        WindowId(raw.to_owned())
    }

    /// The tmux target string for this id, suitable for `-t` arguments.
    pub fn as_target(&self) -> (t: &str)
        ensures
            t@ == self@,
    {
        self.0.as_str()
    }

    /// The id's text, as its display form shows it.
    pub fn to_string(&self) -> (t: String)
        ensures
            t@ == self@,
    {
        self.0.clone()
    }

    /// Whether both ids name the same window.
    pub fn same(&self, other: &WindowId) -> (b: bool)
        ensures
            b == (self@ == other@),
    {
        self.0 == other.0
    }
}

impl Clone for WindowId {
    fn clone(&self) -> (c: Self)
        ensures
            c@ == self@,
    {
        WindowId(self.0.clone())
    }
}

impl PartialEq for WindowId {
    fn eq(&self, other: &Self) -> (b: bool) {
        self.0 == other.0
    }
}

impl vstd::std_specs::cmp::PartialEqSpecImpl for WindowId {
    open spec fn obeys_eq_spec() -> bool {
        true
    }

    open spec fn eq_spec(&self, other: &Self) -> bool {
        self@ == other@
    }
}

impl Eq for WindowId {}

/// A tmux pane id such as `%7`, kept with its `%` prefix so it can be
/// handed to `-t` as is.
#[derive(Debug)]
pub struct PaneId(String);

impl View for PaneId {
    type V = Seq<char>;

    closed spec fn view(&self) -> Seq<char> {
        self.0@
    }
}

impl PaneId {
    /// `raw` must already include the `%` prefix (e.g. `"%7"`).
    pub fn new(raw: &str) -> (id: Self)
        ensures
            id@ == raw@,
    {
        PaneId(raw.to_owned())
    }

    /// The tmux target string for this id, suitable for `-t` arguments.
    pub fn as_target(&self) -> (t: &str)
        ensures
            t@ == self@,
    {
        self.0.as_str()
    }

    /// The id's text, as its display form shows it.
    pub fn to_string(&self) -> (t: String)
        ensures
            t@ == self@,
    {
        self.0.clone()
    }

    /// Whether both ids name the same pane.
    pub fn same(&self, other: &PaneId) -> (b: bool)
        ensures
            b == (self@ == other@),
    {
        self.0 == other.0
    }
}

impl Clone for PaneId {
    fn clone(&self) -> (c: Self)
        ensures
            c@ == self@,
    {
        PaneId(self.0.clone())
    }
}

impl PartialEq for PaneId {
    fn eq(&self, other: &Self) -> (b: bool) {
        self.0 == other.0
    }
}

impl vstd::std_specs::cmp::PartialEqSpecImpl for PaneId {
    open spec fn obeys_eq_spec() -> bool {
        true
    }

    open spec fn eq_spec(&self, other: &Self) -> bool {
        self@ == other@
    }
}

impl Eq for PaneId {}

} // verus!
