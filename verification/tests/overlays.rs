use tmux_ui_manager::tmux::ids::{SessionId, WindowId};
use tmux_ui_manager::ui::drag::DragItem;
use tmux_ui_manager::ui::geometry::Rect;
use tmux_ui_manager::ui::overlays::{
    centered_rect, confirm_buttons, input_title, lifetime_over, toast_text, InputKind, InputOverlay, Toast,
};

#[test]
fn input_overlay_editing_clears_error() {
    let mut overlay = InputOverlay::new(InputKind::NewSession, "");
    overlay.error = Some("duplicate".to_string());
    overlay.push_char('a');
    assert_eq!(overlay.text, "a");
    assert!(overlay.error.is_none());

    overlay.error = Some("duplicate".to_string());
    overlay.backspace();
    assert_eq!(overlay.text, "");
    assert!(overlay.error.is_none());
}

#[test]
fn centered_rect_clamps_to_area() {
    let area = Rect { x: 0, y: 0, width: 20, height: 10 };
    let rect = centered_rect(50, 5, area);
    assert_eq!(rect.width, 20);
    assert_eq!(rect.height, 5);
}

#[test]
fn centered_rect_centers_a_smaller_box() {
    let area = Rect { x: 10, y: 4, width: 80, height: 20 };
    let rect = centered_rect(50, 5, area);
    assert_eq!(rect, Rect { x: 25, y: 11, width: 50, height: 5 });
}

#[test]
fn backspace_undoes_a_typed_character() {
    let mut overlay = InputOverlay::new(InputKind::RenameWindow(WindowId::new("@1")), "ed");
    overlay.push_char('\u{2615}');
    overlay.backspace();
    assert_eq!(overlay.text, "ed");
    let mut empty = InputOverlay::new(InputKind::NewSession, "");
    empty.backspace();
    assert_eq!(empty.text, "");
}

#[test]
fn labels_and_titles() {
    assert_eq!(InputKind::NewSession.label(), "new session name");
    let o = InputOverlay::new(InputKind::RenameSession(SessionId::new("$1")), "main");
    assert_eq!(input_title(&o), format!(" {} ", o.kind.label()));
    assert_eq!(o.text, "main");
    assert!(o.error.is_none());
}

#[test]
fn confirm_buttons_sit_on_the_second_line() {
    let inner = Rect { x: 3, y: 7, width: 40, height: 2 };
    let (yes, no) = confirm_buttons(inner).expect("two lines fit the buttons");
    assert_eq!(yes, Rect { x: 3, y: 8, width: 5, height: 1 });
    assert_eq!(no, Rect { x: 10, y: 8, width: 4, height: 1 });
    assert!(confirm_buttons(Rect { x: 3, y: 7, width: 40, height: 1 }).is_none());
}

#[test]
fn toast_text_is_cut_to_its_row() {
    assert_eq!(toast_text("hello world", 5), "hello");
    assert_eq!(toast_text("hi", 5), "hi");
    assert_eq!(toast_text("\u{2615}\u{2615}\u{2615}", 2), "\u{2615}\u{2615}");
}

#[test]
fn toasts_live_three_seconds() {
    assert!(!lifetime_over(2999));
    assert!(lifetime_over(3000));
    let t = Toast::error("boom".to_string());
    assert!(t.is_error);
    assert_eq!(t.message, "boom");
    assert!(!t.expired());
    let i = Toast::info("ok".to_string());
    assert!(!i.is_error);
}

#[test]
fn drag_to_new_session_prompt_is_labelled_like_a_new_session() {
    let k = InputKind::NewSessionFromDrag(DragItem::Window(WindowId::new("@1")));
    assert_eq!(k.label(), "new session name");
    assert_eq!(k.clone(), k);
}
