use tmux_ui_manager::tmux::actions::{
    attach_session, command_line, command_outcome, command_step, jump_pane, jump_window, ActionError, TmuxAction,
    TmuxCommand,
};
use tmux_ui_manager::tmux::ids::{PaneId, SessionId, WindowId};

fn argv(cmds: &[TmuxCommand]) -> Vec<Vec<String>> {
    cmds.iter().map(|c| c.args.clone()).collect()
}

fn v(parts: &[&str]) -> Vec<String> {
    parts.iter().map(|s| s.to_string()).collect()
}

#[test]
fn jumps_select_then_switch_client() {
    assert_eq!(argv(&attach_session(&SessionId::new("$1"))), vec![v(&["switch-client", "-t", "$1"])]);
    assert_eq!(
        argv(&jump_window(&SessionId::new("$1"), &WindowId::new("@2"))),
        vec![v(&["select-window", "-t", "@2"]), v(&["switch-client", "-t", "$1"])]
    );
    assert_eq!(
        argv(&jump_pane(&SessionId::new("$1"), &WindowId::new("@2"), &PaneId::new("%3"))),
        vec![
            v(&["select-window", "-t", "@2"]),
            v(&["select-pane", "-t", "%3"]),
            v(&["switch-client", "-t", "$1"]),
        ]
    );
}

#[test]
fn mutations_map_to_one_tmux_command_each() {
    let cases = vec![
        (
            TmuxAction::NewSession { name: "fresh".into(), cwd: "/tmp".into() },
            v(&["new-session", "-d", "-s", "fresh", "-c", "/tmp"]),
        ),
        (TmuxAction::KillPane { pane: PaneId::new("%1") }, v(&["kill-pane", "-t", "%1"])),
        (TmuxAction::ToggleZoom { pane: PaneId::new("%2") }, v(&["resize-pane", "-Z", "-t", "%2"])),
        (
            TmuxAction::RenameWindow { window: WindowId::new("@1"), name: "renamed".into() },
            v(&["rename-window", "-t", "@1", "renamed"]),
        ),
        (
            TmuxAction::SetPaneTitle { pane: PaneId::new("%1"), title: "my title".into() },
            v(&["select-pane", "-t", "%1", "-T", "my title"]),
        ),
    ];
    for (action, expected) in cases {
        assert_eq!(argv(&action.commands()), vec![expected]);
    }
}

#[test]
fn a_failed_command_is_reported_with_its_text_and_stderr() {
    let cmd = TmuxCommand { args: v(&["kill-session", "-t", "$9"]) };
    assert_eq!(command_line(&cmd), "tmux kill-session -t $9");
    assert!(command_outcome(&cmd, true, String::new()).is_ok());
    let err = command_outcome(&cmd, false, "no such session\n".into()).unwrap_err();
    assert_eq!(err.command, "tmux kill-session -t $9");
    assert_eq!(err.message(), "`tmux kill-session -t $9` failed: no such session");
    let e = ActionError { command: "c".into(), stderr: "  ".into() };
    assert_eq!(e.message(), "`c` failed: ");
}

#[test]
fn command_steps_stop_at_the_first_failure() {
    let cmds = vec![
        TmuxCommand { args: v(&["select-window", "-t", "@2"]) },
        TmuxCommand { args: v(&["select-pane", "-t", "%3"]) },
        TmuxCommand { args: v(&["switch-client", "-t", "$1"]) },
    ];
    assert_eq!(command_step(&cmds, 0, true, String::new()).unwrap(), Some(1));
    assert_eq!(command_step(&cmds, 1, true, String::new()).unwrap(), Some(2));
    assert_eq!(command_step(&cmds, 2, true, String::new()).unwrap(), None);
    let err = command_step(&cmds, 1, false, "can't find pane: %3\n".into()).unwrap_err();
    assert_eq!(err.command, "tmux select-pane -t %3");
    assert_eq!(err.stderr, "can't find pane: %3\n");
}

#[test]
fn new_session_recipes_create_move_and_drop_the_placeholder() {
    let w = TmuxAction::WindowToNewSession { window: WindowId::new("@4"), name: "fresh".into(), cwd: "/tmp".into() };
    assert_eq!(
        argv(&w.commands()),
        vec![
            v(&["new-session", "-d", "-s", "fresh", "-c", "/tmp"]),
            v(&["move-window", "-s", "@4", "-t", "fresh:"]),
            v(&["kill-window", "-t", "fresh:^"]),
        ]
    );
    assert!(!w.is_jump());
    let p = TmuxAction::PaneToNewSession { pane: PaneId::new("%5"), name: "fresh".into(), cwd: "/tmp".into() };
    assert_eq!(
        argv(&p.commands()),
        vec![
            v(&["new-session", "-d", "-s", "fresh", "-c", "/tmp"]),
            v(&["break-pane", "-d", "-s", "%5", "-t", "fresh:"]),
            v(&["kill-window", "-t", "fresh:^"]),
        ]
    );
}
