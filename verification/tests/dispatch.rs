use tmux_ui_manager::input::{translate_key, AppEvent, KeyCode, KeyInput, KeyKind};
use tmux_ui_manager::model::{Pane, Session, Snapshot, Totals, Window};
use tmux_ui_manager::tmux::actions::TmuxAction;
use tmux_ui_manager::tmux::ids::{PaneId, SessionId, WindowId};
use tmux_ui_manager::ui::app::{App, Column, Mode};

fn snapshot() -> Snapshot {
    let pane = |id: &str| Pane {
        id: PaneId::new(id),
        index: 0,
        active: true,
        command: "zsh".into(),
        path: "/srv".into(),
        title: "t".into(),
        zoomed: false,
    };
    Snapshot {
        sessions: vec![
            Session {
                id: SessionId::new("$1"),
                name: "main".into(),
                attached: true,
                windows: vec![Window {
                    id: WindowId::new("@1"),
                    index: 0,
                    name: "editor".into(),
                    active: true,
                    layout: String::new(),
                    panes: vec![pane("%1")],
                }],
            },
            Session { id: SessionId::new("$2"), name: "other".into(), attached: false, windows: vec![] },
        ],
        client_session: Some(SessionId::new("$1")),
        totals: Totals { sessions: 2, windows: 1, panes: 1 },
    }
}

fn esc() -> KeyInput {
    KeyInput { code: KeyCode::Esc, ctrl: false, kind: KeyKind::Press }
}

#[test]
fn events_drive_the_matching_operation() {
    let mut app = App::new(snapshot());
    assert!(app.handle_event(AppEvent::MoveSelection(1), "/home/u").is_none());
    assert_eq!(app.selected_session.as_ref().unwrap().as_target(), "$2");
    assert!(app.selected_window.is_none());
    app.handle_event(AppEvent::JumpEdge { top: true }, "/home/u");
    assert_eq!(app.selected_session.as_ref().unwrap().as_target(), "$1");
    app.handle_event(AppEvent::MoveFocus(2), "/home/u");
    assert_eq!(app.focus, Column::Panes);
    match app.handle_event(AppEvent::NewContextual, "/home/u") {
        Some(TmuxAction::SplitPane { pane, cwd }) => {
            assert_eq!(pane.as_target(), "%1");
            assert_eq!(cwd, "/srv");
        }
        other => panic!("unexpected {other:?}"),
    }
    match app.handle_event(AppEvent::Activate, "/home/u") {
        Some(action) => assert!(action.is_jump()),
        None => panic!("expected a jump"),
    }
    assert!(!app.should_quit);
    app.handle_event(AppEvent::Quit, "/home/u");
    assert!(app.should_quit);
}

#[test]
fn rename_through_events_sets_the_pane_title() {
    let mut app = App::new(snapshot());
    app.handle_event(AppEvent::MoveFocus(-1), "/");
    app.handle_event(AppEvent::RenameContextual, "/");
    app.handle_event(AppEvent::InputBackspace, "/");
    app.handle_event(AppEvent::InputChar('x'), "/");
    match app.handle_event(AppEvent::InputConfirm, "/") {
        Some(TmuxAction::SetPaneTitle { pane, title }) => {
            assert_eq!(pane.as_target(), "%1");
            assert_eq!(title, "x");
        }
        other => panic!("unexpected {other:?}"),
    }
    assert!(matches!(app.mode, Mode::Normal));
}

#[test]
fn escape_backs_out_of_overlays_then_quits() {
    let mut app = App::new(snapshot());
    app.handle_event(AppEvent::KillContextual, "/");
    assert!(matches!(app.mode, Mode::Confirm(_)));
    let intent = translate_key(&app.mode, esc());
    assert!(app.handle_event(intent, "/").is_none());
    assert!(matches!(app.mode, Mode::Normal));
    assert!(!app.should_quit);

    app.handle_event(AppEvent::NewContextual, "/");
    assert!(matches!(app.mode, Mode::Input(_)));
    let intent = translate_key(&app.mode, esc());
    app.handle_event(intent, "/");
    assert!(matches!(app.mode, Mode::Normal));
    assert!(!app.should_quit);

    let intent = translate_key(&app.mode, esc());
    app.handle_event(intent, "/");
    assert!(app.should_quit);
}

#[test]
fn confirming_a_kill_through_events() {
    let mut app = App::new(snapshot());
    app.handle_event(AppEvent::KillContextual, "/");
    match &app.mode {
        Mode::Confirm(o) => assert!(o.message.contains("attached")),
        _ => panic!("expected Mode::Confirm"),
    }
    match app.handle_event(AppEvent::ConfirmYes, "/") {
        Some(action) => {
            assert!(!action.is_jump());
            assert!(matches!(action, TmuxAction::KillSession { .. }));
        }
        None => panic!("expected a kill"),
    }
}

#[test]
fn pointer_and_drag_intents_change_nothing() {
    let mut app = App::new(snapshot());
    for e in [
        AppEvent::MouseDown { x: 1, y: 1 },
        AppEvent::MouseScroll { x: 1, y: 1, delta: 1 },
        AppEvent::EnterMoveMode,
        AppEvent::DragCommit,
        AppEvent::Redraw,
        AppEvent::Ignored,
        AppEvent::ConfirmMove,
    ] {
        assert!(app.handle_event(e, "/").is_none());
    }
    assert_eq!(app.selected_session.as_ref().unwrap().as_target(), "$1");
    assert_eq!(app.focus, Column::Sessions);
    assert!(matches!(app.mode, Mode::Normal));
    assert!(!app.should_quit);
}
