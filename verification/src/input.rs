//! Terminal events, and the app-level intent each one carries in each mode.
//! The same key means different things while an overlay is open (`n` types
//! the letter into an input rather than asking for "new"); mouse events are
//! ignored while the input overlay is open.
use vstd::prelude::*;

use crate::ui::app::Mode;
use crate::ui::drag::DragState;
use crate::ui::overlays::{ConfirmOverlay, InputOverlay};

verus! {

/// A key, as the terminal reports it.
#[derive(Debug, Clone, Copy, PartialEq, Eq, Structural)]
pub enum KeyCode {
    Up,
    Down,
    Left,
    Right,
    Tab,
    BackTab,
    Enter,
    Esc,
    Backspace,
    Char(char),
    /// Any other key.
    Other,
}

/// Whether a key went down, repeats, or came up.
#[derive(Debug, Clone, Copy, PartialEq, Eq, Structural)]
pub enum KeyKind {
    Press,
    Repeat,
    Release,
}

/// A key event: the key, whether Control was held, and its kind.
#[derive(Debug, Clone, Copy, PartialEq, Eq, Structural)]
pub struct KeyInput {
    pub code: KeyCode,
    pub ctrl: bool,
    pub kind: KeyKind,
}

#[derive(Debug, Clone, Copy, PartialEq, Eq, Structural)]
pub enum MouseButton {
    Left,
    Right,
    Middle,
}

#[derive(Debug, Clone, Copy, PartialEq, Eq, Structural)]
pub enum MouseKind {
    Moved,
    Down(MouseButton),
    Drag(MouseButton),
    Up(MouseButton),
    ScrollDown,
    ScrollUp,
    /// Any other mouse event (horizontal scrolling).
    Other,
}

/// A mouse event at cell `column`, `row`.
#[derive(Debug, Clone, Copy, PartialEq, Eq, Structural)]
pub struct MouseInput {
    pub kind: MouseKind,
    pub column: u16,
    pub row: u16,
}

/// A terminal event.
#[derive(Debug, Clone, Copy, PartialEq, Eq, Structural)]
pub enum TermEvent {
    Key(KeyInput),
    Mouse(MouseInput),
    Resize(u16, u16),
    /// Focus changes, pastes and the like.
    Other,
}

/// Intent extracted from a terminal event, independent of the app's state.
#[derive(Debug, Clone, Copy, PartialEq, Eq, Structural)]
pub enum AppEvent {
    MoveSelection(i32),
    MoveFocus(i32),
    JumpEdge { top: bool },
    Activate,
    Quit,
    Redraw,
    NewContextual,
    RenameContextual,
    KillContextual,
    ZoomContextual,
    InputChar(char),
    InputBackspace,
    InputConfirm,
    InputCancel,
    ConfirmYes,
    ConfirmNo,
    ConfirmMove,
    ConfirmActivate,
    EnterMoveMode,
    DragMoveFocus(i32),
    DragMoveCursor(i32),
    DragCommit,
    DragCancel,
    MouseMoved { x: u16, y: u16 },
    MouseDown { x: u16, y: u16 },
    MouseDragged { x: u16, y: u16 },
    MouseUp { x: u16, y: u16 },
    MouseScroll { x: u16, y: u16, delta: i32 },
    Ignored,
}

/// Keys in plain navigation.
pub open spec fn normal_key(k: KeyInput) -> AppEvent {
    match k.code {
        KeyCode::Up | KeyCode::Char('k') => AppEvent::MoveSelection(-1i32),
        KeyCode::Down | KeyCode::Char('j') => AppEvent::MoveSelection(1),
        KeyCode::Left | KeyCode::Char('h') => AppEvent::MoveFocus(-1i32),
        KeyCode::Right | KeyCode::Char('l') => AppEvent::MoveFocus(1),
        KeyCode::Tab => AppEvent::MoveFocus(1),
        KeyCode::BackTab => AppEvent::MoveFocus(-1i32),
        KeyCode::Enter => AppEvent::Activate,
        KeyCode::Char('g') => AppEvent::JumpEdge { top: true },
        KeyCode::Char('G') => AppEvent::JumpEdge { top: false },
        KeyCode::Char('n') => AppEvent::NewContextual,
        KeyCode::Char('r') => AppEvent::RenameContextual,
        KeyCode::Char('x') => AppEvent::KillContextual,
        KeyCode::Char('z') => AppEvent::ZoomContextual,
        KeyCode::Char(' ') | KeyCode::Char('m') => AppEvent::EnterMoveMode,
        KeyCode::Char('q') | KeyCode::Esc => AppEvent::Quit,
        KeyCode::Char('c') => if k.ctrl {
            AppEvent::Quit
        } else {
            AppEvent::Ignored
        },
        _ => AppEvent::Ignored,
    }
}

/// Keys while the input overlay is open: letters are text.
pub open spec fn input_key(k: KeyInput) -> AppEvent {
    match k.code {
        KeyCode::Enter => AppEvent::InputConfirm,
        KeyCode::Esc => AppEvent::InputCancel,
        KeyCode::Backspace => AppEvent::InputBackspace,
        KeyCode::Char(c) => if !k.ctrl {
            AppEvent::InputChar(c)
        } else {
            AppEvent::Ignored
        },
        _ => AppEvent::Ignored,
    }
}

/// Keys while the kill confirmation is open.
pub open spec fn confirm_key(k: KeyInput) -> AppEvent {
    match k.code {
        KeyCode::Char('y') | KeyCode::Char('Y') => AppEvent::ConfirmYes,
        KeyCode::Char('n') | KeyCode::Char('N') | KeyCode::Esc => AppEvent::ConfirmNo,
        KeyCode::Left | KeyCode::Right | KeyCode::Char('h') | KeyCode::Char('l') | KeyCode::Tab
        | KeyCode::BackTab => AppEvent::ConfirmMove,
        KeyCode::Enter => AppEvent::ConfirmActivate,
        _ => AppEvent::Ignored,
    }
}

/// Keys while a move is in progress.
pub open spec fn dragging_key(k: KeyInput) -> AppEvent {
    match k.code {
        KeyCode::Up | KeyCode::Char('k') => AppEvent::DragMoveCursor(-1i32),
        KeyCode::Down | KeyCode::Char('j') => AppEvent::DragMoveCursor(1),
        KeyCode::Left | KeyCode::Char('h') => AppEvent::DragMoveFocus(-1i32),
        KeyCode::Right | KeyCode::Char('l') => AppEvent::DragMoveFocus(1),
        KeyCode::Enter => AppEvent::DragCommit,
        KeyCode::Esc => AppEvent::DragCancel,
        _ => AppEvent::Ignored,
    }
}

/// A key event in `mode`; key releases mean nothing.
pub open spec fn key_event(mode: Mode, k: KeyInput) -> AppEvent {
    if k.kind == KeyKind::Release {
        AppEvent::Ignored
    } else {
        match mode {
            Mode::Normal => normal_key(k),
            Mode::Input(_) => input_key(k),
            Mode::Confirm(_) => confirm_key(k),
            Mode::Dragging(_) => dragging_key(k),
        }
    }
}

/// A mouse event in `mode`: ignored under the input overlay; otherwise the
/// left button's moves and the wheel.
pub open spec fn mouse_event(mode: Mode, m: MouseInput) -> AppEvent {
    if mode is Input {
        AppEvent::Ignored
    } else {
        let (x, y) = (m.column, m.row);
        match m.kind {
            MouseKind::Moved => AppEvent::MouseMoved { x, y },
            MouseKind::Down(MouseButton::Left) => AppEvent::MouseDown { x, y },
            MouseKind::Drag(MouseButton::Left) => AppEvent::MouseDragged { x, y },
            MouseKind::Up(MouseButton::Left) => AppEvent::MouseUp { x, y },
            MouseKind::ScrollDown => AppEvent::MouseScroll { x, y, delta: 1 },
            MouseKind::ScrollUp => AppEvent::MouseScroll { x, y, delta: -1i32 },
            _ => AppEvent::Ignored,
        }
    }
}

pub open spec fn event_intent(mode: Mode, e: TermEvent) -> AppEvent {
    match e {
        TermEvent::Key(k) => key_event(mode, k),
        TermEvent::Mouse(m) => mouse_event(mode, m),
        TermEvent::Resize(_, _) => AppEvent::Redraw,
        TermEvent::Other => AppEvent::Ignored,
    }
}

/// The intent of a terminal event in the app's current mode.
pub fn translate(mode: &Mode, event: &TermEvent) -> (r: AppEvent)
    ensures
        r == event_intent(*mode, *event),
{
    match event {
        TermEvent::Key(key) => translate_key(mode, *key),
        TermEvent::Mouse(mouse) => translate_mouse(mode, *mouse),
        TermEvent::Resize(_, _) => AppEvent::Redraw,
        TermEvent::Other => AppEvent::Ignored,
    }
}

fn translate_mouse(mode: &Mode, mouse: MouseInput) -> (r: AppEvent)
    ensures
        r == mouse_event(*mode, mouse),
{
    if let Mode::Input(_) = mode {
        return AppEvent::Ignored;
    }
    let x = mouse.column;
    let y = mouse.row;
    match mouse.kind {
        MouseKind::Moved => AppEvent::MouseMoved { x, y },
        MouseKind::Down(MouseButton::Left) => AppEvent::MouseDown { x, y },
        MouseKind::Drag(MouseButton::Left) => AppEvent::MouseDragged { x, y },
        MouseKind::Up(MouseButton::Left) => AppEvent::MouseUp { x, y },
        MouseKind::ScrollDown => AppEvent::MouseScroll { x, y, delta: 1 },
        MouseKind::ScrollUp => AppEvent::MouseScroll { x, y, delta: -1i32 },
        _ => AppEvent::Ignored,
    }
}

/// The intent of a key event in `mode`.
pub fn translate_key(mode: &Mode, key: KeyInput) -> (r: AppEvent)
    ensures
        r == key_event(*mode, key),
{
    if let KeyKind::Release = key.kind {
        return AppEvent::Ignored;
    }
    match mode {
        Mode::Normal => translate_normal_key(key),
        Mode::Input(_) => translate_input_key(key),
        Mode::Confirm(_) => translate_confirm_key(key),
        Mode::Dragging(_) => translate_dragging_key(key),
    }
}

fn translate_normal_key(key: KeyInput) -> (r: AppEvent)
    ensures
        r == normal_key(key),
{
    match key.code {
        KeyCode::Up | KeyCode::Char('k') => AppEvent::MoveSelection(-1i32),
        KeyCode::Down | KeyCode::Char('j') => AppEvent::MoveSelection(1),
        KeyCode::Left | KeyCode::Char('h') => AppEvent::MoveFocus(-1i32),
        KeyCode::Right | KeyCode::Char('l') => AppEvent::MoveFocus(1),
        KeyCode::Tab => AppEvent::MoveFocus(1),
        KeyCode::BackTab => AppEvent::MoveFocus(-1i32),
        KeyCode::Enter => AppEvent::Activate,
        KeyCode::Char('g') => AppEvent::JumpEdge { top: true },
        KeyCode::Char('G') => AppEvent::JumpEdge { top: false },
        KeyCode::Char('n') => AppEvent::NewContextual,
        KeyCode::Char('r') => AppEvent::RenameContextual,
        KeyCode::Char('x') => AppEvent::KillContextual,
        KeyCode::Char('z') => AppEvent::ZoomContextual,
        KeyCode::Char(' ') | KeyCode::Char('m') => AppEvent::EnterMoveMode,
        KeyCode::Char('q') | KeyCode::Esc => AppEvent::Quit,
        KeyCode::Char('c') => if key.ctrl {
            AppEvent::Quit
        } else {
            AppEvent::Ignored
        },
        _ => AppEvent::Ignored,
    }
}

fn translate_input_key(key: KeyInput) -> (r: AppEvent)
    ensures
        r == input_key(key),
{
    match key.code {
        KeyCode::Enter => AppEvent::InputConfirm,
        KeyCode::Esc => AppEvent::InputCancel,
        KeyCode::Backspace => AppEvent::InputBackspace,
        KeyCode::Char(c) => if !key.ctrl {
            AppEvent::InputChar(c)
        } else {
            AppEvent::Ignored
        },
        _ => AppEvent::Ignored,
    }
}

fn translate_confirm_key(key: KeyInput) -> (r: AppEvent)
    ensures
        r == confirm_key(key),
{
    match key.code {
        KeyCode::Char('y') | KeyCode::Char('Y') => AppEvent::ConfirmYes,
        KeyCode::Char('n') | KeyCode::Char('N') | KeyCode::Esc => AppEvent::ConfirmNo,
        KeyCode::Left | KeyCode::Right | KeyCode::Char('h') | KeyCode::Char('l') | KeyCode::Tab
        | KeyCode::BackTab => AppEvent::ConfirmMove,
        KeyCode::Enter => AppEvent::ConfirmActivate,
        _ => AppEvent::Ignored,
    }
}

fn translate_dragging_key(key: KeyInput) -> (r: AppEvent)
    ensures
        r == dragging_key(key),
{
    match key.code {
        KeyCode::Up | KeyCode::Char('k') => AppEvent::DragMoveCursor(-1i32),
        KeyCode::Down | KeyCode::Char('j') => AppEvent::DragMoveCursor(1),
        KeyCode::Left | KeyCode::Char('h') => AppEvent::DragMoveFocus(-1i32),
        KeyCode::Right | KeyCode::Char('l') => AppEvent::DragMoveFocus(1),
        KeyCode::Enter => AppEvent::DragCommit,
        KeyCode::Esc => AppEvent::DragCancel,
        _ => AppEvent::Ignored,
    }
}

/// Under the input overlay every printable key without Control is text, so
/// none of the navigation shortcuts can fire while typing a name.
pub proof fn law_typing_is_text(mode: Mode, c: char, kind: KeyKind)
    requires
        mode is Input,
        kind != KeyKind::Release,
    ensures
        key_event(mode, KeyInput { code: KeyCode::Char(c), ctrl: false, kind }) == AppEvent::InputChar(c),
{
}

/// Key releases never mean anything, in any mode.
pub proof fn law_release_is_ignored(mode: Mode, code: KeyCode, ctrl: bool)
    ensures
        key_event(mode, KeyInput { code, ctrl, kind: KeyKind::Release }) == AppEvent::Ignored,
{
}

/// The key bindings of plain navigation: the arrow keys mean what the vi
/// letters mean (↑ = `k` moves the selection up, ↓ = `j` down, ← = `h` and
/// Shift-Tab move focus left, → = `l` and Tab right), and the opposite keys go
/// opposite ways; Enter activates, `g` / `G` jump to the top / bottom, `n`,
/// `r`, `x`, `z` ask for new / rename / kill / zoom, Space and `m` pick up,
/// and `q` and Esc quit. Holding Control changes none of these.
pub proof fn law_navigation_keys(ctrl: bool, kind: KeyKind)
    requires
        kind != KeyKind::Release,
    ensures
        ({
            let key = |code: KeyCode| key_event(Mode::Normal, KeyInput { code, ctrl, kind });
            &&& key(KeyCode::Up) == key(KeyCode::Char('k'))
            &&& key(KeyCode::Up) == AppEvent::MoveSelection(-1i32)
            &&& key(KeyCode::Down) == key(KeyCode::Char('j'))
            &&& key(KeyCode::Down) == AppEvent::MoveSelection(1)
            &&& key(KeyCode::Left) == key(KeyCode::Char('h'))
            &&& key(KeyCode::Left) == key(KeyCode::BackTab)
            &&& key(KeyCode::Left) == AppEvent::MoveFocus(-1i32)
            &&& key(KeyCode::Right) == key(KeyCode::Char('l'))
            &&& key(KeyCode::Right) == key(KeyCode::Tab)
            &&& key(KeyCode::Right) == AppEvent::MoveFocus(1)
            &&& key(KeyCode::Enter) == AppEvent::Activate
            &&& key(KeyCode::Char('g')) == AppEvent::JumpEdge { top: true }
            &&& key(KeyCode::Char('G')) == AppEvent::JumpEdge { top: false }
            &&& key(KeyCode::Char('n')) == AppEvent::NewContextual
            &&& key(KeyCode::Char('r')) == AppEvent::RenameContextual
            &&& key(KeyCode::Char('x')) == AppEvent::KillContextual
            &&& key(KeyCode::Char('z')) == AppEvent::ZoomContextual
            &&& key(KeyCode::Char(' ')) == AppEvent::EnterMoveMode
            &&& key(KeyCode::Char('m')) == AppEvent::EnterMoveMode
            &&& key(KeyCode::Char('q')) == AppEvent::Quit
            &&& key(KeyCode::Esc) == AppEvent::Quit
        }),
{
}

/// While a move is under way the same keys steer the drop cursor: ↑ / `k`
/// up, ↓ / `j` down, ← / `h` and → / `l` across columns; Enter drops and Esc
/// cancels.
pub proof fn law_move_keys(ctrl: bool, kind: KeyKind, drag: DragState)
    requires
        kind != KeyKind::Release,
    ensures
        ({
            let key = |code: KeyCode| key_event(Mode::Dragging(drag), KeyInput { code, ctrl, kind });
            &&& key(KeyCode::Up) == key(KeyCode::Char('k'))
            &&& key(KeyCode::Up) == AppEvent::DragMoveCursor(-1i32)
            &&& key(KeyCode::Down) == key(KeyCode::Char('j'))
            &&& key(KeyCode::Down) == AppEvent::DragMoveCursor(1)
            &&& key(KeyCode::Left) == key(KeyCode::Char('h'))
            &&& key(KeyCode::Left) == AppEvent::DragMoveFocus(-1i32)
            &&& key(KeyCode::Right) == key(KeyCode::Char('l'))
            &&& key(KeyCode::Right) == AppEvent::DragMoveFocus(1)
            &&& key(KeyCode::Enter) == AppEvent::DragCommit
            &&& key(KeyCode::Esc) == AppEvent::DragCancel
        }),
{
}

/// In the kill confirmation `y` (or `Y`) confirms and `n` (or `N`) and Esc
/// refuse; in the input box Enter confirms, Esc cancels and Backspace
/// deletes.
pub proof fn law_overlay_keys(ctrl: bool, kind: KeyKind, confirm: ConfirmOverlay, input: InputOverlay)
    requires
        kind != KeyKind::Release,
    ensures
        ({
            let key = |code: KeyCode| key_event(Mode::Confirm(confirm), KeyInput { code, ctrl, kind });
            &&& key(KeyCode::Char('y')) == AppEvent::ConfirmYes
            &&& key(KeyCode::Char('Y')) == AppEvent::ConfirmYes
            &&& key(KeyCode::Char('n')) == AppEvent::ConfirmNo
            &&& key(KeyCode::Char('N')) == AppEvent::ConfirmNo
            &&& key(KeyCode::Esc) == AppEvent::ConfirmNo
        }),
        ({
            let key = |code: KeyCode| key_event(Mode::Input(input), KeyInput { code, ctrl, kind });
            &&& key(KeyCode::Enter) == AppEvent::InputConfirm
            &&& key(KeyCode::Esc) == AppEvent::InputCancel
            &&& key(KeyCode::Backspace) == AppEvent::InputBackspace
        }),
{
}

} // verus!
