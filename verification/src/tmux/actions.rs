//! The tmux commands behind every mutation and jump. Each command is an
//! argument vector for the `tmux` binary, never a shell string; running them
//! is left to the caller, which reports each outcome back through
//! [`command_step`]: the commands of an action run in order, and the first
//! failure stops them.
use vstd::prelude::*;

use crate::text::{push_char, trim, trimmed};
use crate::tmux::ids::{PaneId, SessionId, WindowId};

verus! {

/// One `tmux` invocation: the arguments that follow the program name.
#[derive(Debug)]
pub struct TmuxCommand {
    pub args: Vec<String>,
}

pub open spec fn view_strings(v: Seq<String>) -> Seq<Seq<char>> {
    Seq::new(v.len(), |i: int| v[i]@)
}

impl View for TmuxCommand {
    type V = Seq<Seq<char>>;

    open spec fn view(&self) -> Seq<Seq<char>> {
        view_strings(self.args@)
    }
}

pub open spec fn view_commands(v: Seq<TmuxCommand>) -> Seq<Seq<Seq<char>>> {
    Seq::new(v.len(), |i: int| v[i]@)
}

/// `args` joined with single spaces.
pub open spec fn joined(args: Seq<Seq<char>>) -> Seq<char>
    decreases args.len(),
{
    if args.len() == 0 {
        seq![]
    } else if args.len() == 1 {
        args[0]
    } else {
        joined(args.drop_last()) + " "@ + args.last()
    }
}

/// The command as the error message shows it: `tmux` and its arguments.
pub open spec fn command_text(args: Seq<Seq<char>>) -> Seq<char> {
    "tmux "@ + joined(args)
}

/// The command line of `cmd`, as `tmux a b c`.
pub fn command_line(cmd: &TmuxCommand) -> (s: String)
    ensures
        s@ == command_text(cmd@),
{
    let mut s = String::from_str("tmux ");
    let mut i: usize = 0;
    let ghost v = cmd@;
    while i < cmd.args.len()
        invariant
            0 <= i <= cmd.args@.len(),
            v == cmd@,
            s@ == "tmux "@ + joined(v.take(i as int)),
        decreases cmd.args.len() - i,
    {
        assert(v.take(i + 1).drop_last() =~= v.take(i as int));
        if i > 0 {
            s.append(" ");
        }
        s.append(cmd.args[i].as_str());
        proof {
            if i == 0 {
                assert(v.take(1) =~= seq![v[0]]);
            }
            assert(s@ =~= "tmux "@ + joined(v.take(i + 1)));
        }
        i = i + 1;
    }
    assert(v.take(cmd.args.len() as int) =~= v);
    s
}

/// A failed tmux invocation: the command that was run and what it printed.
#[derive(Debug)]
pub struct ActionError {
    pub command: String,
    pub stderr: String,
}

pub open spec fn action_error_message(command: Seq<char>, stderr: Seq<char>) -> Seq<char> {
    "`"@ + command + "` failed: "@ + trimmed(stderr)
}

impl ActionError {
    /// The error as its display text shows it, with tmux's stderr trimmed.
    pub fn message(&self) -> (m: String)
        ensures
            m@ == action_error_message(self.command@, self.stderr@),
    {
        let mut m = String::from_str("`");
        m.append(self.command.as_str());
        m.append("` failed: ");
        let t = trim(self.stderr.as_str());
        m.append(t.as_str());
        m
    }
}

/// The result of running `cmd`: success, or an error naming the command and
/// carrying what tmux printed on stderr (or why it could not be started).
pub fn command_outcome(cmd: &TmuxCommand, succeeded: bool, stderr: String) -> (r: Result<
    (),
    ActionError,
>)
    ensures
        succeeded ==> r is Ok,
        !succeeded ==> (r matches Err(e) && e.command@ == command_text(cmd@) && e.stderr@
            == stderr@),
{
    if succeeded {
        Ok(())
    } else {
        Err(ActionError { command: command_line(cmd), stderr })
    }
}

/// What follows once command `i` of `cmds` has run: the next command to run,
/// or the end of the sequence when it was the last; a failure stops the
/// sequence with the error that names the failed command.
pub fn command_step(cmds: &[TmuxCommand], i: usize, succeeded: bool, stderr: String) -> (r: Result<
    Option<usize>,
    ActionError,
>)
    requires
        i < cmds@.len(),
    ensures
        !succeeded ==> (r matches Err(e) && e.command@ == command_text(cmds@[i as int]@)
            && e.stderr@ == stderr@),
        succeeded && i + 1 < cmds@.len() ==> (r matches Ok(Some(n)) && n == i + 1),
        succeeded && i + 1 == cmds@.len() ==> r matches Ok(None),
{
    match command_outcome(&cmds[i], succeeded, stderr) {
        Err(e) => Err(e),
        Ok(()) => {
            if i + 1 < cmds.len() {
                Ok(Some(i + 1))
            } else {
                Ok(None)
            }
        },
    }
}

fn command(parts: &[&str]) -> (c: TmuxCommand)
    ensures
        c@ == Seq::new(parts@.len(), |i: int| parts@[i]@),
{
    let mut args: Vec<String> = Vec::new();
    let mut i: usize = 0;
    while i < parts.len()
        invariant
            0 <= i <= parts@.len(),
            args@.len() == i,
            forall|k: int| 0 <= k < i ==> (#[trigger] args@[k])@ == parts@[k]@,
        decreases parts.len() - i,
    {
        args.push(String::from_str(parts[i]));
        i = i + 1;
    }
    let c = TmuxCommand { args };
    assert(c@ =~= Seq::new(parts@.len(), |i: int| parts@[i]@));
    c
}

/// Attach/jump to a session: `switch-client -t <session>`.
pub fn attach_session(id: &SessionId) -> (cmds: Vec<TmuxCommand>)
    ensures
        view_commands(cmds@) == seq![seq!["switch-client"@, "-t"@, id@]],
{
    let mut cmds = Vec::new();
    cmds.push(command(&["switch-client", "-t", id.as_target()]));
    assert(cmds@[0]@ =~= seq!["switch-client"@, "-t"@, id@]);
    assert(view_commands(cmds@) =~= seq![seq!["switch-client"@, "-t"@, id@]]);
    cmds
}

/// Jump to a window: select it, then switch the client to its session.
pub fn jump_window(session: &SessionId, window: &WindowId) -> (cmds: Vec<TmuxCommand>)
    ensures
        view_commands(cmds@) == seq![
            seq!["select-window"@, "-t"@, window@],
            seq!["switch-client"@, "-t"@, session@],
        ],
{
    let mut cmds = Vec::new();
    cmds.push(command(&["select-window", "-t", window.as_target()]));
    cmds.push(command(&["switch-client", "-t", session.as_target()]));
    assert(cmds@[0]@ =~= seq!["select-window"@, "-t"@, window@]);
    assert(cmds@[1]@ =~= seq!["switch-client"@, "-t"@, session@]);
    assert(view_commands(cmds@) =~= seq![
        seq!["select-window"@, "-t"@, window@],
        seq!["switch-client"@, "-t"@, session@],
    ]);
    cmds
}

/// Jump to a pane: select its window, then the pane, then switch the client
/// to the session.
pub fn jump_pane(session: &SessionId, window: &WindowId, pane: &PaneId) -> (cmds: Vec<
    TmuxCommand,
>)
    ensures
        view_commands(cmds@) == seq![
            seq!["select-window"@, "-t"@, window@],
            seq!["select-pane"@, "-t"@, pane@],
            seq!["switch-client"@, "-t"@, session@],
        ],
{
    let mut cmds = Vec::new();
    cmds.push(command(&["select-window", "-t", window.as_target()]));
    cmds.push(command(&["select-pane", "-t", pane.as_target()]));
    cmds.push(command(&["switch-client", "-t", session.as_target()]));
    assert(cmds@[0]@ =~= seq!["select-window"@, "-t"@, window@]);
    assert(cmds@[1]@ =~= seq!["select-pane"@, "-t"@, pane@]);
    assert(cmds@[2]@ =~= seq!["switch-client"@, "-t"@, session@]);
    assert(view_commands(cmds@) =~= seq![
        seq!["select-window"@, "-t"@, window@],
        seq!["select-pane"@, "-t"@, pane@],
        seq!["switch-client"@, "-t"@, session@],
    ]);
    cmds
}

/// A tmux mutation or jump requested by the app.
#[derive(Debug)]
pub enum TmuxAction {
    /// Switch the client to `session`.
    AttachSession { session: SessionId },
    /// Jump to `window` of `session`.
    JumpWindow { session: SessionId, window: WindowId },
    /// Jump to `pane` of `window` of `session`.
    JumpPane { session: SessionId, window: WindowId, pane: PaneId },
    /// Create a detached session named `name` whose first window starts in `cwd`.
    NewSession { name: String, cwd: String },
    /// Create a window in `session` starting in `cwd`.
    NewWindow { session: SessionId, cwd: String },
    /// Split `pane`, the new pane starting in `cwd`.
    SplitPane { pane: PaneId, cwd: String },
    /// Toggle the zoom of `pane`'s window onto `pane`.
    ToggleZoom { pane: PaneId },
    /// Rename `session` to `name`.
    RenameSession { session: SessionId, name: String },
    /// Rename `window` to `name`.
    RenameWindow { window: WindowId, name: String },
    /// Set the title of `pane`.
    SetPaneTitle { pane: PaneId, title: String },
    /// Kill `session`.
    KillSession { session: SessionId },
    /// Kill `window`.
    KillWindow { window: WindowId },
    /// Kill `pane`.
    KillPane { pane: PaneId },
    /// Move `window` into a new session `name` started in `cwd`: the session
    /// is created (with a placeholder window), the window moved in, and the
    /// placeholder killed.
    WindowToNewSession { window: WindowId, name: String, cwd: String },
    /// Move `pane` into a new session `name` started in `cwd`: the session is
    /// created (with a placeholder window), the pane broken out into a window
    /// of it, and the placeholder killed.
    PaneToNewSession { pane: PaneId, name: String, cwd: String },
}

/// The commands that carry out an action, in order.
pub open spec fn action_commands(a: TmuxAction) -> Seq<Seq<Seq<char>>> {
    match a {
        TmuxAction::AttachSession { session } => seq![seq!["switch-client"@, "-t"@, session@]],
        TmuxAction::JumpWindow { session, window } => seq![
            seq!["select-window"@, "-t"@, window@],
            seq!["switch-client"@, "-t"@, session@],
        ],
        TmuxAction::JumpPane { session, window, pane } => seq![
            seq!["select-window"@, "-t"@, window@],
            seq!["select-pane"@, "-t"@, pane@],
            seq!["switch-client"@, "-t"@, session@],
        ],
        TmuxAction::NewSession { name, cwd } => seq![seq!["new-session"@, "-d"@, "-s"@, name@, "-c"@, cwd@]],
        TmuxAction::NewWindow { session, cwd } => seq![seq!["new-window"@, "-t"@, session@, "-c"@, cwd@]],
        TmuxAction::SplitPane { pane, cwd } => seq![seq!["split-window"@, "-t"@, pane@, "-c"@, cwd@]],
        TmuxAction::ToggleZoom { pane } => seq![seq!["resize-pane"@, "-Z"@, "-t"@, pane@]],
        TmuxAction::RenameSession { session, name } => seq![seq!["rename-session"@, "-t"@, session@, name@]],
        TmuxAction::RenameWindow { window, name } => seq![seq!["rename-window"@, "-t"@, window@, name@]],
        TmuxAction::SetPaneTitle { pane, title } => seq![seq!["select-pane"@, "-t"@, pane@, "-T"@, title@]],
        TmuxAction::KillSession { session } => seq![seq!["kill-session"@, "-t"@, session@]],
        TmuxAction::KillWindow { window } => seq![seq!["kill-window"@, "-t"@, window@]],
        TmuxAction::KillPane { pane } => seq![seq!["kill-pane"@, "-t"@, pane@]],
        TmuxAction::WindowToNewSession { window, name, cwd } => seq![
            seq!["new-session"@, "-d"@, "-s"@, name@, "-c"@, cwd@],
            seq!["move-window"@, "-s"@, window@, "-t"@, name@ + ":"@],
            seq!["kill-window"@, "-t"@, name@ + ":^"@],
        ],
        TmuxAction::PaneToNewSession { pane, name, cwd } => seq![
            seq!["new-session"@, "-d"@, "-s"@, name@, "-c"@, cwd@],
            seq!["break-pane"@, "-d"@, "-s"@, pane@, "-t"@, name@ + ":"@],
            seq!["kill-window"@, "-t"@, name@ + ":^"@],
        ],
    }
}

/// Whether `a` moves the client somewhere rather than changing tmux.
pub open spec fn jump_action(a: TmuxAction) -> bool {
    a is AttachSession || a is JumpWindow || a is JumpPane
}

impl TmuxAction {
    /// Whether this action moves the client (attach or jump) rather than
    /// changing sessions, windows or panes.
    pub fn is_jump(&self) -> (b: bool)
        ensures
            b == jump_action(*self),
    {
        match self {
            TmuxAction::AttachSession { .. } | TmuxAction::JumpWindow { .. }
            | TmuxAction::JumpPane { .. } => true,
            _ => false,
        }
    }

    /// The commands that carry out this action, in order.
    pub fn commands(&self) -> (cmds: Vec<TmuxCommand>)
        ensures
            view_commands(cmds@) == action_commands(*self),
    {
        match self {
            TmuxAction::AttachSession { session } => attach_session(session),
            TmuxAction::JumpWindow { session, window } => jump_window(session, window),
            TmuxAction::JumpPane { session, window, pane } => jump_pane(session, window, pane),
            TmuxAction::NewSession { name, cwd } => {
                let mut cmds = Vec::new();
                cmds.push(command(&["new-session", "-d", "-s", name.as_str(), "-c", cwd.as_str()]));
                assert(cmds@[0]@ =~= seq!["new-session"@, "-d"@, "-s"@, name@, "-c"@, cwd@]);
                assert(view_commands(cmds@) =~= seq![seq!["new-session"@, "-d"@, "-s"@, name@, "-c"@, cwd@]]);
                cmds
            },
            TmuxAction::NewWindow { session, cwd } => {
                let mut cmds = Vec::new();
                cmds.push(command(&["new-window", "-t", session.as_target(), "-c", cwd.as_str()]));
                assert(cmds@[0]@ =~= seq!["new-window"@, "-t"@, session@, "-c"@, cwd@]);
                assert(view_commands(cmds@) =~= seq![seq!["new-window"@, "-t"@, session@, "-c"@, cwd@]]);
                cmds
            },
            TmuxAction::SplitPane { pane, cwd } => {
                let mut cmds = Vec::new();
                cmds.push(command(&["split-window", "-t", pane.as_target(), "-c", cwd.as_str()]));
                assert(cmds@[0]@ =~= seq!["split-window"@, "-t"@, pane@, "-c"@, cwd@]);
                assert(view_commands(cmds@) =~= seq![seq!["split-window"@, "-t"@, pane@, "-c"@, cwd@]]);
                cmds
            },
            TmuxAction::ToggleZoom { pane } => {
                let mut cmds = Vec::new();
                cmds.push(command(&["resize-pane", "-Z", "-t", pane.as_target()]));
                assert(cmds@[0]@ =~= seq!["resize-pane"@, "-Z"@, "-t"@, pane@]);
                assert(view_commands(cmds@) =~= seq![seq!["resize-pane"@, "-Z"@, "-t"@, pane@]]);
                cmds
            },
            TmuxAction::RenameSession { session, name } => {
                let mut cmds = Vec::new();
                cmds.push(command(&["rename-session", "-t", session.as_target(), name.as_str()]));
                assert(cmds@[0]@ =~= seq!["rename-session"@, "-t"@, session@, name@]);
                assert(view_commands(cmds@) =~= seq![seq!["rename-session"@, "-t"@, session@, name@]]);
                cmds
            },
            TmuxAction::RenameWindow { window, name } => {
                let mut cmds = Vec::new();
                cmds.push(command(&["rename-window", "-t", window.as_target(), name.as_str()]));
                assert(cmds@[0]@ =~= seq!["rename-window"@, "-t"@, window@, name@]);
                assert(view_commands(cmds@) =~= seq![seq!["rename-window"@, "-t"@, window@, name@]]);
                cmds
            },
            TmuxAction::SetPaneTitle { pane, title } => {
                let mut cmds = Vec::new();
                cmds.push(command(&["select-pane", "-t", pane.as_target(), "-T", title.as_str()]));
                assert(cmds@[0]@ =~= seq!["select-pane"@, "-t"@, pane@, "-T"@, title@]);
                assert(view_commands(cmds@) =~= seq![seq!["select-pane"@, "-t"@, pane@, "-T"@, title@]]);
                cmds
            },
            TmuxAction::KillSession { session } => {
                let mut cmds = Vec::new();
                cmds.push(command(&["kill-session", "-t", session.as_target()]));
                assert(cmds@[0]@ =~= seq!["kill-session"@, "-t"@, session@]);
                assert(view_commands(cmds@) =~= seq![seq!["kill-session"@, "-t"@, session@]]);
                cmds
            },
            TmuxAction::KillWindow { window } => {
                let mut cmds = Vec::new();
                cmds.push(command(&["kill-window", "-t", window.as_target()]));
                assert(cmds@[0]@ =~= seq!["kill-window"@, "-t"@, window@]);
                assert(view_commands(cmds@) =~= seq![seq!["kill-window"@, "-t"@, window@]]);
                cmds
            },
            TmuxAction::KillPane { pane } => {
                let mut cmds = Vec::new();
                cmds.push(command(&["kill-pane", "-t", pane.as_target()]));
                assert(cmds@[0]@ =~= seq!["kill-pane"@, "-t"@, pane@]);
                assert(view_commands(cmds@) =~= seq![seq!["kill-pane"@, "-t"@, pane@]]);
                cmds
            },
            TmuxAction::WindowToNewSession { window, name, cwd } => {
                let mut session_end = name.clone();
                session_end.append(":");
                let mut first_window = name.clone();
                first_window.append(":^");
                let mut cmds = Vec::new();
                cmds.push(command(&["new-session", "-d", "-s", name.as_str(), "-c", cwd.as_str()]));
                cmds.push(command(&["move-window", "-s", window.as_target(), "-t", session_end.as_str()]));
                cmds.push(command(&["kill-window", "-t", first_window.as_str()]));
                assert(cmds@[0]@ =~= seq!["new-session"@, "-d"@, "-s"@, name@, "-c"@, cwd@]);
                assert(cmds@[1]@ =~= seq!["move-window"@, "-s"@, window@, "-t"@, name@ + ":"@]);
                assert(cmds@[2]@ =~= seq!["kill-window"@, "-t"@, name@ + ":^"@]);
                assert(view_commands(cmds@) =~= action_commands(*self));
                cmds
            },
            TmuxAction::PaneToNewSession { pane, name, cwd } => {
                let mut session_end = name.clone();
                session_end.append(":");
                let mut first_window = name.clone();
                first_window.append(":^");
                let mut cmds = Vec::new();
                cmds.push(command(&["new-session", "-d", "-s", name.as_str(), "-c", cwd.as_str()]));
                cmds.push(command(&["break-pane", "-d", "-s", pane.as_target(), "-t", session_end.as_str()]));
                cmds.push(command(&["kill-window", "-t", first_window.as_str()]));
                assert(cmds@[0]@ =~= seq!["new-session"@, "-d"@, "-s"@, name@, "-c"@, cwd@]);
                assert(cmds@[1]@ =~= seq!["break-pane"@, "-d"@, "-s"@, pane@, "-t"@, name@ + ":"@]);
                assert(cmds@[2]@ =~= seq!["kill-window"@, "-t"@, name@ + ":^"@]);
                assert(view_commands(cmds@) =~= action_commands(*self));
                cmds
            },
        }
    }
}

/// Each action runs the tmux commands named for it, aimed at its own target:
/// a kill runs exactly one `kill-session`, `kill-window` or `kill-pane` on the
/// session, window or pane it names (never a narrower or wider one); a rename
/// runs one `rename-session` / `rename-window` on its target with the new
/// name; a pane title is set with `select-pane -T`; zoom toggles with
/// `resize-pane -Z` on the pane; new sessions, windows and panes start in the
/// given directory; a jump selects the window (and pane) before it switches
/// the client to the session; moving a window or pane into a new session
/// creates the session first, then moves the item in, and only then kills
/// the session's placeholder window.
pub proof fn law_actions_aim_at_their_targets(
    session: SessionId,
    window: WindowId,
    pane: PaneId,
    name: String,
    cwd: String,
)
    ensures
        action_commands(TmuxAction::KillSession { session }) == seq![seq!["kill-session"@, "-t"@, session@]],
        action_commands(TmuxAction::KillWindow { window }) == seq![seq!["kill-window"@, "-t"@, window@]],
        action_commands(TmuxAction::KillPane { pane }) == seq![seq!["kill-pane"@, "-t"@, pane@]],
        action_commands(TmuxAction::RenameSession { session, name }) == seq![
            seq!["rename-session"@, "-t"@, session@, name@],
        ],
        action_commands(TmuxAction::RenameWindow { window, name }) == seq![
            seq!["rename-window"@, "-t"@, window@, name@],
        ],
        action_commands(TmuxAction::SetPaneTitle { pane, title: name }) == seq![
            seq!["select-pane"@, "-t"@, pane@, "-T"@, name@],
        ],
        action_commands(TmuxAction::ToggleZoom { pane }) == seq![seq!["resize-pane"@, "-Z"@, "-t"@, pane@]],
        action_commands(TmuxAction::NewSession { name, cwd }) == seq![
            seq!["new-session"@, "-d"@, "-s"@, name@, "-c"@, cwd@],
        ],
        action_commands(TmuxAction::NewWindow { session, cwd }) == seq![
            seq!["new-window"@, "-t"@, session@, "-c"@, cwd@],
        ],
        action_commands(TmuxAction::SplitPane { pane, cwd }) == seq![
            seq!["split-window"@, "-t"@, pane@, "-c"@, cwd@],
        ],
        action_commands(TmuxAction::AttachSession { session }) == seq![seq!["switch-client"@, "-t"@, session@]],
        action_commands(TmuxAction::JumpWindow { session, window }) == seq![
            seq!["select-window"@, "-t"@, window@],
            seq!["switch-client"@, "-t"@, session@],
        ],
        action_commands(TmuxAction::JumpPane { session, window, pane }) == seq![
            seq!["select-window"@, "-t"@, window@],
            seq!["select-pane"@, "-t"@, pane@],
            seq!["switch-client"@, "-t"@, session@],
        ],
        action_commands(TmuxAction::WindowToNewSession { window, name, cwd }) == seq![
            seq!["new-session"@, "-d"@, "-s"@, name@, "-c"@, cwd@],
            seq!["move-window"@, "-s"@, window@, "-t"@, name@ + ":"@],
            seq!["kill-window"@, "-t"@, name@ + ":^"@],
        ],
        action_commands(TmuxAction::PaneToNewSession { pane, name, cwd }) == seq![
            seq!["new-session"@, "-d"@, "-s"@, name@, "-c"@, cwd@],
            seq!["break-pane"@, "-d"@, "-s"@, pane@, "-t"@, name@ + ":"@],
            seq!["kill-window"@, "-t"@, name@ + ":^"@],
        ],
{
}

} // verus!
