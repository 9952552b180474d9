use tmux_ui_manager::tmux::ids::{PaneId, SessionId, WindowId};
use tmux_ui_manager::ui::drag::{plan_drop, DragItem, DropTarget, PlannedAction};

fn wid(s: &str) -> WindowId {
    WindowId::new(s)
}
fn pid(s: &str) -> PaneId {
    PaneId::new(s)
}
fn sid(s: &str) -> SessionId {
    SessionId::new(s)
}

// @1, @2, @3 in that order: the window list backing most gap tests below.
fn three_windows() -> Vec<WindowId> {
    vec![wid("@1"), wid("@2"), wid("@3")]
}

#[test]
fn window_onto_own_session_is_noop() {
    let action = plan_drop(
        &DragItem::Window(wid("@1")),
        &DropTarget::SessionRow(sid("$1")),
        Some(&sid("$1")),
        None,
        &three_windows(),
    );
    assert_eq!(action, PlannedAction::NoOp);
}

#[test]
fn window_onto_other_session_moves() {
    let action = plan_drop(
        &DragItem::Window(wid("@1")),
        &DropTarget::SessionRow(sid("$2")),
        Some(&sid("$1")),
        None,
        &three_windows(),
    );
    assert_eq!(
        action,
        PlannedAction::MoveWindowToSession {
            window: wid("@1"),
            session: sid("$2")
        }
    );
}

#[test]
fn window_onto_own_gap_anchor_is_noop() {
    // Gap { anchor: @1, after: false } literally means "insert @1 before @1".
    let action = plan_drop(
        &DragItem::Window(wid("@1")),
        &DropTarget::WindowGap {
            anchor: wid("@1"),
            after: false,
        },
        Some(&sid("$1")),
        None,
        &three_windows(),
    );
    assert_eq!(action, PlannedAction::NoOp);
}

#[test]
fn window_onto_the_gap_immediately_after_its_own_current_position_is_noop() {
    // List is [@1, @2, @3]; dragging @1. Gap { anchor: @2, after: false }
    // ("insert @1 before @2") changes nothing, since @1 is already right
    // before @2 — this is the bracketing case identity-only checks miss.
    let action = plan_drop(
        &DragItem::Window(wid("@1")),
        &DropTarget::WindowGap {
            anchor: wid("@2"),
            after: false,
        },
        Some(&sid("$1")),
        None,
        &three_windows(),
    );
    assert_eq!(action, PlannedAction::NoOp);
}

#[test]
fn window_onto_the_gap_immediately_before_its_own_current_position_is_noop() {
    // Dragging @2 (sits between @1 and @3): Gap { anchor: @1, after: true }
    // ("insert @2 after @1") is also a no-op for the same reason, mirrored.
    let action = plan_drop(
        &DragItem::Window(wid("@2")),
        &DropTarget::WindowGap {
            anchor: wid("@1"),
            after: true,
        },
        Some(&sid("$1")),
        None,
        &three_windows(),
    );
    assert_eq!(action, PlannedAction::NoOp);
}

#[test]
fn window_onto_a_real_gap_reorders() {
    // Dragging @1 onto "after @3" is a genuine move (not adjacent to @1's
    // current spot at all).
    let action = plan_drop(
        &DragItem::Window(wid("@1")),
        &DropTarget::WindowGap {
            anchor: wid("@3"),
            after: true,
        },
        Some(&sid("$1")),
        None,
        &three_windows(),
    );
    assert_eq!(
        action,
        PlannedAction::ReorderWindow {
            window: wid("@1"),
            anchor: wid("@3"),
            after: true
        }
    );
}

#[test]
fn window_onto_gap_in_a_list_without_the_anchor_is_not_a_noop() {
    // Dragging @1 while viewing a *different* session's window list that
    // doesn't even contain @1 — every gap there is a real target.
    let other_session_windows = vec![wid("@9")];
    let action = plan_drop(
        &DragItem::Window(wid("@1")),
        &DropTarget::WindowGap {
            anchor: wid("@9"),
            after: false,
        },
        Some(&sid("$1")),
        None,
        &other_session_windows,
    );
    assert_eq!(
        action,
        PlannedAction::ReorderWindow {
            window: wid("@1"),
            anchor: wid("@9"),
            after: false
        }
    );
}

#[test]
fn window_onto_new_session_row_uses_recipe() {
    let action = plan_drop(
        &DragItem::Window(wid("@1")),
        &DropTarget::NewSessionRow,
        Some(&sid("$1")),
        None,
        &three_windows(),
    );
    assert_eq!(
        action,
        PlannedAction::WindowToNewSession { window: wid("@1") }
    );
}

#[test]
fn window_onto_window_row_or_pane_row_is_noop() {
    assert_eq!(
        plan_drop(
            &DragItem::Window(wid("@1")),
            &DropTarget::WindowRow(wid("@2")),
            Some(&sid("$1")),
            None,
            &three_windows(),
        ),
        PlannedAction::NoOp
    );
    assert_eq!(
        plan_drop(
            &DragItem::Window(wid("@1")),
            &DropTarget::PaneRow(pid("%1")),
            Some(&sid("$1")),
            None,
            &three_windows(),
        ),
        PlannedAction::NoOp
    );
}

#[test]
fn pane_onto_own_window_is_noop() {
    let action = plan_drop(
        &DragItem::Pane(pid("%1")),
        &DropTarget::WindowRow(wid("@1")),
        None,
        Some(&wid("@1")),
        &[],
    );
    assert_eq!(action, PlannedAction::NoOp);
}

#[test]
fn pane_onto_other_window_joins() {
    let action = plan_drop(
        &DragItem::Pane(pid("%1")),
        &DropTarget::WindowRow(wid("@2")),
        None,
        Some(&wid("@1")),
        &[],
    );
    assert_eq!(
        action,
        PlannedAction::JoinPaneIntoWindow {
            pane: pid("%1"),
            window: wid("@2")
        }
    );
}

#[test]
fn pane_onto_itself_is_noop() {
    let action = plan_drop(
        &DragItem::Pane(pid("%1")),
        &DropTarget::PaneRow(pid("%1")),
        None,
        None,
        &[],
    );
    assert_eq!(action, PlannedAction::NoOp);
}

#[test]
fn pane_onto_other_pane_splits() {
    let action = plan_drop(
        &DragItem::Pane(pid("%1")),
        &DropTarget::PaneRow(pid("%2")),
        None,
        None,
        &[],
    );
    assert_eq!(
        action,
        PlannedAction::SplitPaneOntoPane {
            pane: pid("%1"),
            target: pid("%2")
        }
    );
}

#[test]
fn pane_onto_session_row_breaks_into_new_window() {
    let action = plan_drop(
        &DragItem::Pane(pid("%1")),
        &DropTarget::SessionRow(sid("$2")),
        None,
        None,
        &[],
    );
    assert_eq!(
        action,
        PlannedAction::PaneToNewWindowInSession {
            pane: pid("%1"),
            session: sid("$2")
        }
    );
}

#[test]
fn pane_onto_new_window_row_uses_currently_viewed_session() {
    let action = plan_drop(
        &DragItem::Pane(pid("%1")),
        &DropTarget::NewWindowRow,
        Some(&sid("$1")),
        None,
        &[],
    );
    assert_eq!(
        action,
        PlannedAction::PaneToNewWindowInSession {
            pane: pid("%1"),
            session: sid("$1")
        }
    );
}

#[test]
fn pane_onto_new_window_row_without_a_viewed_session_is_noop() {
    let action = plan_drop(
        &DragItem::Pane(pid("%1")),
        &DropTarget::NewWindowRow,
        None,
        None,
        &[],
    );
    assert_eq!(action, PlannedAction::NoOp);
}

#[test]
fn pane_onto_new_session_row_uses_recipe() {
    let action = plan_drop(
        &DragItem::Pane(pid("%1")),
        &DropTarget::NewSessionRow,
        None,
        None,
        &[],
    );
    assert_eq!(action, PlannedAction::PaneToNewSession { pane: pid("%1") });
}

#[test]
fn pane_onto_window_gap_is_noop() {
    let action = plan_drop(
        &DragItem::Pane(pid("%1")),
        &DropTarget::WindowGap {
            anchor: wid("@1"),
            after: false,
        },
        None,
        None,
        &[],
    );
    assert_eq!(action, PlannedAction::NoOp);
}

#[test]
fn window_onto_new_window_row_is_noop() {
    assert_eq!(
        plan_drop(
            &DragItem::Window(wid("@1")),
            &DropTarget::NewWindowRow,
            Some(&sid("$1")),
            None,
            &three_windows(),
        ),
        PlannedAction::NoOp
    );
}

#[test]
fn gap_far_from_own_position_before_anchor_reorders() {
    // Dragging @3 to "before @1" is a real move.
    assert_eq!(
        plan_drop(
            &DragItem::Window(wid("@3")),
            &DropTarget::WindowGap { anchor: wid("@1"), after: false },
            Some(&sid("$1")),
            None,
            &three_windows(),
        ),
        PlannedAction::ReorderWindow { window: wid("@3"), anchor: wid("@1"), after: false }
    );
}

#[test]
fn window_onto_other_session_without_known_origin_moves() {
    assert_eq!(
        plan_drop(
            &DragItem::Window(wid("@1")),
            &DropTarget::SessionRow(sid("$1")),
            None,
            None,
            &three_windows(),
        ),
        PlannedAction::MoveWindowToSession { window: wid("@1"), session: sid("$1") }
    );
}
