use tmux_ui_manager::tmux::ids::{PaneId, SessionId, WindowId};

#[test]
fn as_target_returns_raw_id() {
    let s = SessionId::new("$3");
    assert_eq!(s.as_target(), "$3");
    assert_eq!(s.to_string(), "$3");
}

#[test]
fn window_and_pane_ids_round_trip() {
    assert_eq!(WindowId::new("@12").as_target(), "@12");
    assert_eq!(PaneId::new("%7").as_target(), "%7");
}

#[test]
fn ids_compare_by_their_text() {
    assert_eq!(SessionId::new("$1"), SessionId::new("$1"));
    assert_ne!(SessionId::new("$1"), SessionId::new("$2"));
    assert!(WindowId::new("@4").same(&WindowId::new("@4")));
    assert!(!PaneId::new("%4").same(&PaneId::new("%5")));
    assert_eq!(PaneId::new("%9").clone().to_string(), "%9");
}
