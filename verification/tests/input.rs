use tmux_ui_manager::input::{translate, translate_key, AppEvent, KeyCode, KeyInput, KeyKind, MouseButton, MouseInput, MouseKind, TermEvent};
use tmux_ui_manager::tmux::ids::PaneId;
use tmux_ui_manager::ui::app::Mode;
use tmux_ui_manager::ui::overlays::{ConfirmKind, ConfirmOverlay, InputKind, InputOverlay};

fn press(code: KeyCode) -> KeyInput {
    KeyInput { code, ctrl: false, kind: KeyKind::Press }
}

#[test]
fn hjkl_map_to_selection_and_focus() {
    assert_eq!(translate_key(&Mode::Normal, press(KeyCode::Char('j'))), AppEvent::MoveSelection(1));
    assert_eq!(translate_key(&Mode::Normal, press(KeyCode::Char('k'))), AppEvent::MoveSelection(-1));
    assert_eq!(translate_key(&Mode::Normal, press(KeyCode::Char('h'))), AppEvent::MoveFocus(-1));
    assert_eq!(translate_key(&Mode::Normal, press(KeyCode::Char('l'))), AppEvent::MoveFocus(1));
}

#[test]
fn enter_activates_and_q_quits() {
    assert_eq!(translate_key(&Mode::Normal, press(KeyCode::Enter)), AppEvent::Activate);
    assert_eq!(translate_key(&Mode::Normal, press(KeyCode::Char('q'))), AppEvent::Quit);
    assert_eq!(translate_key(&Mode::Normal, press(KeyCode::Esc)), AppEvent::Quit);
}

#[test]
fn key_release_events_are_ignored() {
    let mut key = press(KeyCode::Char('j'));
    key.kind = KeyKind::Release;
    assert_eq!(translate_key(&Mode::Normal, key), AppEvent::Ignored);
}

#[test]
fn normal_mode_contextual_keys() {
    assert_eq!(translate_key(&Mode::Normal, press(KeyCode::Char('n'))), AppEvent::NewContextual);
    assert_eq!(translate_key(&Mode::Normal, press(KeyCode::Char('r'))), AppEvent::RenameContextual);
    assert_eq!(translate_key(&Mode::Normal, press(KeyCode::Char('x'))), AppEvent::KillContextual);
    assert_eq!(translate_key(&Mode::Normal, press(KeyCode::Char('z'))), AppEvent::ZoomContextual);
}

#[test]
fn input_mode_treats_shortcut_letters_as_text() {
    let mode = Mode::Input(InputOverlay::new(InputKind::NewSession, ""));
    assert_eq!(translate_key(&mode, press(KeyCode::Char('n'))), AppEvent::InputChar('n'));
    assert_eq!(translate_key(&mode, press(KeyCode::Backspace)), AppEvent::InputBackspace);
    assert_eq!(translate_key(&mode, press(KeyCode::Enter)), AppEvent::InputConfirm);
    assert_eq!(translate_key(&mode, press(KeyCode::Esc)), AppEvent::InputCancel);
}

#[test]
fn confirm_mode_responds_to_y_n_esc_and_navigation() {
    let mode = Mode::Confirm(ConfirmOverlay {
        kind: ConfirmKind::KillPane(PaneId::new("%1")),
        message: String::new(),
    });
    assert_eq!(translate_key(&mode, press(KeyCode::Char('y'))), AppEvent::ConfirmYes);
    assert_eq!(translate_key(&mode, press(KeyCode::Char('n'))), AppEvent::ConfirmNo);
    assert_eq!(translate_key(&mode, press(KeyCode::Esc)), AppEvent::ConfirmNo);
    assert_eq!(translate_key(&mode, press(KeyCode::Char('x'))), AppEvent::Ignored);
    for code in [
        KeyCode::Left,
        KeyCode::Right,
        KeyCode::Char('h'),
        KeyCode::Char('l'),
        KeyCode::Tab,
        KeyCode::BackTab,
    ] {
        assert_eq!(translate_key(&mode, press(code)), AppEvent::ConfirmMove);
    }
    assert_eq!(translate_key(&mode, press(KeyCode::Enter)), AppEvent::ConfirmActivate);
}

#[test]
fn ctrl_c_quits_but_plain_c_does_not() {
    let ctrl_c = KeyInput { code: KeyCode::Char('c'), ctrl: true, kind: KeyKind::Press };
    assert_eq!(translate_key(&Mode::Normal, ctrl_c), AppEvent::Quit);
    assert_eq!(translate_key(&Mode::Normal, press(KeyCode::Char('c'))), AppEvent::Ignored);
}

#[test]
fn typing_in_input_mode_is_text_for_every_letter() {
    let mode = Mode::Input(InputOverlay::new(InputKind::NewSession, ""));
    for c in ['q', 'x', 'j', ' ', 'Z', '\u{e9}'] {
        assert_eq!(translate_key(&mode, press(KeyCode::Char(c))), AppEvent::InputChar(c));
    }
}

#[test]
fn mouse_events_become_pointer_intents_outside_input_mode() {
    let down = TermEvent::Mouse(MouseInput { kind: MouseKind::Down(MouseButton::Left), column: 4, row: 7 });
    assert_eq!(translate(&Mode::Normal, &down), AppEvent::MouseDown { x: 4, y: 7 });
    let scroll = TermEvent::Mouse(MouseInput { kind: MouseKind::ScrollDown, column: 1, row: 2 });
    match translate(&Mode::Normal, &scroll) {
        AppEvent::MouseScroll { x: 1, y: 2, delta } => assert!(delta > 0),
        other => panic!("unexpected {other:?}"),
    }
    let mode = Mode::Input(InputOverlay::new(InputKind::NewSession, ""));
    assert_eq!(translate(&mode, &down), AppEvent::Ignored);
}

#[test]
fn resize_asks_for_a_redraw() {
    assert_eq!(translate(&Mode::Normal, &TermEvent::Resize(80, 24)), AppEvent::Redraw);
}
