use tmux_ui_manager::model::{Pane, Session, Snapshot, Totals, Window};
use tmux_ui_manager::tmux::actions::{ActionError, TmuxAction};
use tmux_ui_manager::tmux::ids::{PaneId, SessionId, WindowId};
use tmux_ui_manager::ui::app::{validate_session_name, App, Column, Mode};
use tmux_ui_manager::ui::drag::DragItem;
use tmux_ui_manager::ui::overlays::{ConfirmKind, InputKind, InputOverlay};

fn pane(id: &str, index: u32) -> Pane {
    Pane {
        id: PaneId::new(id),
        index,
        active: index == 0,
        command: "zsh".into(),
        path: "/tmp".into(),
        title: String::new(),
        zoomed: false,
    }
}

fn window(id: &str, index: u32, panes: Vec<Pane>) -> Window {
    Window {
        id: WindowId::new(id),
        index,
        name: format!("win{index}"),
        active: index == 0,
        layout: String::new(),
        panes,
    }
}

fn session(id: &str, name: &str, windows: Vec<Window>) -> Session {
    Session { id: SessionId::new(id), name: name.into(), attached: false, windows }
}

fn sample_snapshot() -> Snapshot {
    let s1 = session(
        "$1",
        "main",
        vec![
            window("@1", 0, vec![pane("%1", 0), pane("%2", 1)]),
            window("@2", 1, vec![pane("%3", 0)]),
        ],
    );
    let s2 = session("$2", "dotfiles", vec![window("@3", 0, vec![pane("%4", 0)])]);
    Snapshot {
        totals: Totals { sessions: 2, windows: 3, panes: 4 },
        client_session: None,
        sessions: vec![s1, s2],
    }
}

fn sel_s(app: &App) -> &str {
    app.selected_session.as_ref().unwrap().as_target()
}
fn sel_w(app: &App) -> &str {
    app.selected_window.as_ref().unwrap().as_target()
}
fn sel_p(app: &App) -> &str {
    app.selected_pane.as_ref().unwrap().as_target()
}

#[test]
fn new_app_selects_first_session_window_pane() {
    let app = App::new(sample_snapshot());
    assert_eq!(sel_s(&app), "$1");
    assert_eq!(sel_w(&app), "@1");
    assert_eq!(sel_p(&app), "%1");
}

#[test]
fn changing_session_selection_cascades_to_first_window_and_pane() {
    let mut app = App::new(sample_snapshot());
    app.move_selection(1);
    assert_eq!(sel_s(&app), "$2");
    assert_eq!(sel_w(&app), "@3");
    assert_eq!(sel_p(&app), "%4");
}

#[test]
fn changing_window_selection_cascades_to_first_pane() {
    let mut app = App::new(sample_snapshot());
    app.focus = Column::Windows;
    app.move_selection(1);
    assert_eq!(sel_w(&app), "@2");
    assert_eq!(sel_p(&app), "%3");
}

#[test]
fn selection_clamps_at_column_boundaries() {
    let mut app = App::new(sample_snapshot());
    app.move_selection(-5);
    assert_eq!(sel_s(&app), "$1");
    app.move_selection(5);
    assert_eq!(sel_s(&app), "$2");
    app.move_selection(5);
    assert_eq!(sel_s(&app), "$2");
}

#[test]
fn focus_wraps_in_both_directions() {
    let mut app = App::new(sample_snapshot());
    assert_eq!(app.focus, Column::Sessions);
    app.move_focus(-1);
    assert_eq!(app.focus, Column::Panes);
    app.move_focus(1);
    assert_eq!(app.focus, Column::Sessions);
}

#[test]
fn jump_to_edge_selects_first_or_last() {
    let mut app = App::new(sample_snapshot());
    app.focus = Column::Windows;
    app.jump_to_edge(false);
    assert_eq!(sel_w(&app), "@2");
    app.jump_to_edge(true);
    assert_eq!(sel_w(&app), "@1");
}

#[test]
fn refresh_keeps_selection_when_id_still_present() {
    let mut app = App::new(sample_snapshot());
    app.focus = Column::Windows;
    app.move_selection(1);
    app.apply_refresh(sample_snapshot());
    assert_eq!(sel_w(&app), "@2");
    assert_eq!(sel_p(&app), "%3");
}

#[test]
fn refresh_falls_back_to_neighbor_index_when_selection_vanished() {
    let mut app = App::new(sample_snapshot());
    app.focus = Column::Windows;
    app.move_selection(1);
    let mut shrunk = sample_snapshot();
    shrunk.sessions[0].windows.truncate(1);
    app.apply_refresh(shrunk);
    assert_eq!(sel_w(&app), "@1");
}

#[test]
fn open_new_on_sessions_column_opens_empty_input_overlay() {
    let mut app = App::new(sample_snapshot());
    assert!(app.open_new("/home/u").is_none());
    match &app.mode {
        Mode::Input(overlay) => {
            assert_eq!(overlay.kind, InputKind::NewSession);
            assert_eq!(overlay.text, "");
        }
        _ => panic!("expected Mode::Input"),
    }
}

#[test]
fn open_rename_prefills_with_current_name() {
    let mut app = App::new(sample_snapshot());
    app.open_rename();
    match &app.mode {
        Mode::Input(overlay) => {
            assert_eq!(overlay.kind, InputKind::RenameSession(SessionId::new("$1")));
            assert_eq!(overlay.text, "main");
        }
        _ => panic!("expected Mode::Input"),
    }

    let mut app = App::new(sample_snapshot());
    app.focus = Column::Windows;
    app.open_rename();
    match &app.mode {
        Mode::Input(overlay) => {
            assert_eq!(overlay.kind, InputKind::RenameWindow(WindowId::new("@1")));
            assert_eq!(overlay.text, "win0");
        }
        _ => panic!("expected Mode::Input"),
    }
}

#[test]
fn open_kill_confirm_uses_plain_wording_for_ordinary_session() {
    let mut app = App::new(sample_snapshot());
    app.open_kill_confirm();
    match &app.mode {
        Mode::Confirm(overlay) => {
            assert_eq!(overlay.kind, ConfirmKind::KillSession(SessionId::new("$1")));
            assert!(overlay.message.contains("kill session 'main'?"));
        }
        _ => panic!("expected Mode::Confirm"),
    }
}

#[test]
fn open_kill_confirm_warns_about_attached_client_session() {
    let mut snapshot = sample_snapshot();
    snapshot.client_session = Some(SessionId::new("$1"));
    let mut app = App::new(snapshot);
    app.open_kill_confirm();
    match &app.mode {
        Mode::Confirm(overlay) => {
            assert!(overlay.message.contains("attached"));
            assert!(overlay.message.contains("jump/detach"));
        }
        _ => panic!("expected Mode::Confirm"),
    }
}

#[test]
fn open_kill_confirm_warns_about_last_session_regardless_of_attachment() {
    let mut snapshot = sample_snapshot();
    snapshot.sessions.truncate(1);
    let mut app = App::new(snapshot);
    app.open_kill_confirm();
    match &app.mode {
        Mode::Confirm(overlay) => {
            assert!(overlay.message.contains("last session"));
            assert!(overlay.message.contains("server will exit"));
        }
        _ => panic!("expected Mode::Confirm"),
    }
}

#[test]
fn zoom_toggle_is_noop_outside_panes_column() {
    let mut app = App::new(sample_snapshot());
    app.focus = Column::Sessions;
    assert!(app.toggle_zoom().is_none());
    assert!(matches!(app.mode, Mode::Normal));
}

#[test]
fn input_editing_and_cancel() {
    let mut app = App::new(sample_snapshot());
    app.open_new("/home/u");
    app.input_char('a');
    app.input_char('b');
    match &app.mode {
        Mode::Input(overlay) => assert_eq!(overlay.text, "ab"),
        _ => panic!("expected Mode::Input"),
    }
    app.input_backspace();
    match &app.mode {
        Mode::Input(overlay) => assert_eq!(overlay.text, "a"),
        _ => panic!("expected Mode::Input"),
    }
    app.input_cancel();
    assert!(matches!(app.mode, Mode::Normal));
}

#[test]
fn confirm_no_returns_to_normal_without_acting() {
    let mut app = App::new(sample_snapshot());
    app.open_kill_confirm();
    app.confirm_no();
    assert!(matches!(app.mode, Mode::Normal));
}

#[test]
fn validate_session_name_rejects_empty_illegal_chars_and_duplicates() {
    let sessions = sample_snapshot().sessions;
    assert!(validate_session_name("", &sessions, None).is_err());
    assert!(validate_session_name("foo:bar", &sessions, None).is_err());
    assert!(validate_session_name("foo.bar", &sessions, None).is_err());
    assert!(validate_session_name("main", &sessions, None).is_err());
    assert!(validate_session_name("main", &sessions, Some(&SessionId::new("$1"))).is_ok());
    assert!(validate_session_name("brand-new", &sessions, None).is_ok());
}

#[test]
fn validate_session_name_error_messages() {
    let sessions = sample_snapshot().sessions;
    assert_eq!(validate_session_name("", &sessions, None), Err("cannot be empty".to_string()));
    assert_eq!(
        validate_session_name("a:b", &sessions, None),
        Err("name cannot contain ':' or '.'".to_string())
    );
    assert_eq!(
        validate_session_name("dotfiles", &sessions, Some(&SessionId::new("$1"))),
        Err("session 'dotfiles' already exists".to_string())
    );
}

#[test]
fn activate_jumps_to_the_selection_of_the_focused_column() {
    let mut app = App::new(sample_snapshot());
    match app.activate() {
        Some(TmuxAction::AttachSession { session }) => assert_eq!(session.as_target(), "$1"),
        other => panic!("unexpected {other:?}"),
    }
    app.focus = Column::Windows;
    match app.activate() {
        Some(TmuxAction::JumpWindow { session, window }) => {
            assert_eq!(session.as_target(), "$1");
            assert_eq!(window.as_target(), "@1");
        }
        other => panic!("unexpected {other:?}"),
    }
    app.focus = Column::Panes;
    match app.activate() {
        Some(TmuxAction::JumpPane { session, window, pane }) => {
            assert_eq!(session.as_target(), "$1");
            assert_eq!(window.as_target(), "@1");
            assert_eq!(pane.as_target(), "%1");
        }
        other => panic!("unexpected {other:?}"),
    }
}

#[test]
fn successful_activation_closes_the_popup_and_failure_does_not() {
    let mut app = App::new(sample_snapshot());
    app.activate_done(&Err(ActionError { command: "tmux x".into(), stderr: "no".into() }));
    assert!(!app.should_quit);
    app.activate_done(&Ok(()));
    assert!(app.should_quit);
}

#[test]
fn failed_mutation_shows_an_error_toast() {
    let mut app = App::new(sample_snapshot());
    app.report(Ok(()));
    assert!(app.toast.is_none());
    app.report(Err(ActionError { command: "tmux kill-pane -t %9".into(), stderr: "can't find pane\n".into() }));
    let toast = app.toast.as_ref().expect("an error toast");
    assert!(toast.is_error);
    assert_eq!(toast.message, "`tmux kill-pane -t %9` failed: can't find pane");
    app.expire_toast();
    assert!(app.toast.is_some());
}

#[test]
fn confirming_new_session_input_creates_it_in_home() {
    let mut app = App::new(sample_snapshot());
    app.open_new("/home/u");
    for c in "  fresh ".chars() {
        app.input_char(c);
    }
    match app.input_confirm("/home/u") {
        Some(TmuxAction::NewSession { name, cwd }) => {
            assert_eq!(name, "fresh");
            assert_eq!(cwd, "/home/u");
        }
        other => panic!("unexpected {other:?}"),
    }
    assert!(matches!(app.mode, Mode::Normal));
}

#[test]
fn confirming_a_duplicate_name_keeps_the_overlay_with_an_error() {
    let mut app = App::new(sample_snapshot());
    app.open_new("/home/u");
    for c in "main".chars() {
        app.input_char(c);
    }
    assert!(app.input_confirm("/home/u").is_none());
    match &app.mode {
        Mode::Input(overlay) => {
            assert_eq!(overlay.text, "main");
            assert_eq!(overlay.error.as_deref(), Some("session 'main' already exists"));
        }
        _ => panic!("expected Mode::Input"),
    }
}

#[test]
fn confirm_yes_kills_what_the_overlay_names() {
    let mut app = App::new(sample_snapshot());
    app.focus = Column::Panes;
    app.open_kill_confirm();
    match app.confirm_yes() {
        Some(TmuxAction::KillPane { pane }) => assert_eq!(pane.as_target(), "%1"),
        other => panic!("unexpected {other:?}"),
    }
    assert!(matches!(app.mode, Mode::Normal));
    assert!(app.confirm_yes().is_none());
}

#[test]
fn new_in_windows_and_panes_columns_starts_in_the_pane_path() {
    let mut app = App::new(sample_snapshot());
    app.focus = Column::Windows;
    match app.open_new("/home/u") {
        Some(TmuxAction::NewWindow { session, cwd }) => {
            assert_eq!(session.as_target(), "$1");
            assert_eq!(cwd, "/tmp");
        }
        other => panic!("unexpected {other:?}"),
    }
    app.focus = Column::Panes;
    match app.open_new("/home/u") {
        Some(TmuxAction::SplitPane { pane, cwd }) => {
            assert_eq!(pane.as_target(), "%1");
            assert_eq!(cwd, "/tmp");
        }
        other => panic!("unexpected {other:?}"),
    }
    assert!(matches!(app.mode, Mode::Normal));
}

#[test]
fn zoom_in_panes_column_targets_the_selected_pane() {
    let mut app = App::new(sample_snapshot());
    app.focus = Column::Panes;
    match app.toggle_zoom() {
        Some(TmuxAction::ToggleZoom { pane }) => assert_eq!(pane.as_target(), "%1"),
        other => panic!("unexpected {other:?}"),
    }
}

#[test]
fn focus_moves_back_and_forth_return_to_the_start() {
    let mut app = App::new(sample_snapshot());
    for delta in [1, 2, -1, 5, -7] {
        let before = app.focus;
        app.move_focus(delta);
        app.move_focus(-delta);
        assert_eq!(app.focus, before);
    }
}

#[test]
fn empty_snapshot_selects_nothing() {
    let mut app = App::new(Snapshot { sessions: vec![], client_session: None, totals: Totals::default() });
    assert!(app.selected_session.is_none());
    assert!(app.selected_window.is_none());
    assert!(app.selected_pane.is_none());
    app.move_selection(1);
    assert!(app.selected_session.is_none());
    assert!(app.activate().is_none());
}

#[test]
fn refresh_onto_an_empty_server_clears_the_selection() {
    let mut app = App::new(sample_snapshot());
    app.apply_refresh(Snapshot { sessions: vec![], client_session: None, totals: Totals::default() });
    assert!(app.selected_session.is_none());
    assert!(app.selected_window.is_none());
    assert!(app.selected_pane.is_none());
}

#[test]
fn clear_toast_if_clears_exactly_when_expired() {
    let mut app = App::new(sample_snapshot());
    app.report(Err(ActionError { command: "tmux x".into(), stderr: "no".into() }));
    app.clear_toast_if(false);
    assert!(app.toast.is_some());
    app.clear_toast_if(true);
    assert!(app.toast.is_none());
    app.clear_toast_if(true);
    assert!(app.toast.is_none());
}

#[test]
fn confirming_a_drag_onto_new_session_asks_for_the_recipe() {
    let mut app = App::new(sample_snapshot());
    app.mode = Mode::Input(InputOverlay::new(InputKind::NewSessionFromDrag(DragItem::Window(WindowId::new("@2"))), " win1 "));
    match app.input_confirm("/home/u") {
        Some(TmuxAction::WindowToNewSession { window, name, cwd }) => {
            assert_eq!(window.as_target(), "@2");
            assert_eq!(name, "win1");
            assert_eq!(cwd, "/home/u");
        }
        other => panic!("unexpected {other:?}"),
    }
    assert!(matches!(app.mode, Mode::Normal));

    app.mode = Mode::Input(InputOverlay::new(InputKind::NewSessionFromDrag(DragItem::Pane(PaneId::new("%3"))), "main"));
    assert!(app.input_confirm("/home/u").is_none());
    match &app.mode {
        Mode::Input(o) => assert_eq!(o.error.as_deref(), Some("session 'main' already exists")),
        _ => panic!("expected Mode::Input"),
    }
    app.mode = Mode::Input(InputOverlay::new(InputKind::NewSessionFromDrag(DragItem::Pane(PaneId::new("%3"))), "fresh"));
    match app.input_confirm("/home/u") {
        Some(TmuxAction::PaneToNewSession { pane, name, cwd }) => {
            assert_eq!(pane.as_target(), "%3");
            assert_eq!(name, "fresh");
            assert_eq!(cwd, "/home/u");
        }
        other => panic!("unexpected {other:?}"),
    }
}

#[test]
fn a_second_refresh_with_a_copy_changes_no_selection() {
    let mut app = App::new(sample_snapshot());
    app.focus = Column::Windows;
    app.move_selection(1);
    let snap = sample_snapshot();
    app.apply_refresh(snap.clone());
    let (s, w, p) = (sel_s(&app).to_string(), sel_w(&app).to_string(), sel_p(&app).to_string());
    app.apply_refresh(snap.clone());
    assert_eq!((sel_s(&app), sel_w(&app), sel_p(&app)), (s.as_str(), w.as_str(), p.as_str()));
}
