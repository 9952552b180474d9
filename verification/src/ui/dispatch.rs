//! What each input intent does to the app: the one place that maps an
//! `AppEvent` onto the `App` operation it asks for.
use vstd::prelude::*;

use crate::input::{key_event, AppEvent, KeyCode, KeyInput, KeyKind};
use crate::tmux::actions::TmuxAction;
use crate::ui::app::{
    activate_result, confirm_no_step, confirm_yes_step, input_backspace_step, input_cancel_step,
    input_char_step, input_confirm_step, jump_to_edge_step, move_focus_step, move_selection_step,
    open_kill_confirm_step, open_new_step, open_rename_step, toggle_zoom_result, App,
};

verus! {

/// What handling `event` does: the `App` operation it names, with its
/// result; every other intent leaves the app as it was and asks for nothing.
pub open spec fn event_step(
    before: App,
    after: App,
    event: AppEvent,
    home: &str,
    r: Option<TmuxAction>,
) -> bool {
    match event {
        AppEvent::MoveSelection(d) => move_selection_step(before, after, d) && r is None,
        AppEvent::MoveFocus(d) => move_focus_step(before, after, d) && r is None,
        AppEvent::JumpEdge { top } => jump_to_edge_step(before, after, top) && r is None,
        AppEvent::Activate => after == before && activate_result(before, r),
        AppEvent::Quit => after == (App { should_quit: true, ..before }) && r is None,
        AppEvent::NewContextual => open_new_step(before, after, home, r),
        AppEvent::RenameContextual => open_rename_step(before, after) && r is None,
        AppEvent::KillContextual => open_kill_confirm_step(before, after) && r is None,
        AppEvent::ZoomContextual => after == before && toggle_zoom_result(before, r),
        AppEvent::InputChar(c) => input_char_step(before, after, c) && r is None,
        AppEvent::InputBackspace => input_backspace_step(before, after) && r is None,
        AppEvent::InputConfirm => input_confirm_step(before, after, home, r),
        AppEvent::InputCancel => input_cancel_step(before, after) && r is None,
        AppEvent::ConfirmYes => confirm_yes_step(before, after, r),
        AppEvent::ConfirmNo => confirm_no_step(before, after) && r is None,
        _ => after == before && r is None,
    }
}

impl App {
    /// Carries out the intent of one input event and returns the tmux action
    /// it asks for, if any; `home` is where new windows and panes start when
    /// the selection has no path of its own. A jump (see
    /// `TmuxAction::is_jump`) closes the popup once it succeeds
    /// (`activate_done`); any other action is reported (`report`) and followed
    /// by a fresh snapshot. Drag and pointer intents change nothing here.
    pub fn handle_event(&mut self, event: AppEvent, home: &str) -> (r: Option<TmuxAction>)
        ensures
            event_step(*old(self), *final(self), event, home, r),
    {
        match event {
            AppEvent::MoveSelection(d) => {
                self.move_selection(d);
                None
            },
            AppEvent::MoveFocus(d) => {
                self.move_focus(d);
                None
            },
            AppEvent::JumpEdge { top } => {
                self.jump_to_edge(top);
                None
            },
            AppEvent::Activate => self.activate(),
            AppEvent::Quit => {
                self.should_quit = true;
                None
            },
            AppEvent::NewContextual => self.open_new(home),
            AppEvent::RenameContextual => {
                self.open_rename();
                None
            },
            AppEvent::KillContextual => {
                self.open_kill_confirm();
                None
            },
            AppEvent::ZoomContextual => self.toggle_zoom(),
            AppEvent::InputChar(c) => {
                self.input_char(c);
                None
            },
            AppEvent::InputBackspace => {
                self.input_backspace();
                None
            },
            AppEvent::InputConfirm => self.input_confirm(home),
            AppEvent::InputCancel => {
                self.input_cancel();
                None
            },
            AppEvent::ConfirmYes => self.confirm_yes(),
            AppEvent::ConfirmNo => {
                self.confirm_no();
                None
            },
            _ => None,
        }
    }
}

/// Escape backs out: it closes an open input or confirmation box without
/// asking tmux for anything, and quits when nothing is open.
pub proof fn law_escape_backs_out(
    before: App,
    after: App,
    ctrl: bool,
    home: &str,
    r: Option<TmuxAction>,
)
    requires
        !(before.mode is Dragging),
        event_step(
            before,
            after,
            key_event(before.mode, KeyInput { code: KeyCode::Esc, ctrl, kind: KeyKind::Press }),
            home,
            r,
        ),
    ensures
        r is None,
        before.mode is Normal ==> after.should_quit && after.mode is Normal,
        !(before.mode is Normal) ==> after.mode is Normal && after.should_quit == before.should_quit,
        after.snapshot == before.snapshot,
        after.selected_session == before.selected_session,
        after.selected_window == before.selected_window,
        after.selected_pane == before.selected_pane,
{
}

} // verus!
