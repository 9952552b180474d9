use tmux_ui_manager::model::{Pane, Session, Snapshot, Totals, Window};
use tmux_ui_manager::tmux::ids::{PaneId, SessionId, WindowId};
use tmux_ui_manager::ui::app::{App, Column, Mode};
use tmux_ui_manager::ui::columns::{panes_title, windows_title};
use tmux_ui_manager::ui::geometry::Rect;
use tmux_ui_manager::ui::hitmap::ClickTarget;
use tmux_ui_manager::ui::overlays::{InputKind, InputOverlay};
use tmux_ui_manager::ui::rows::{layout_column, RowSpec};
use tmux_ui_manager::ui::screen::{notice_rect, too_small, toast_rect};
use tmux_ui_manager::ui::statusbar::{footer_hint, header_left, header_padding, totals_text};

fn pane(id: &str, index: u32) -> Pane {
    Pane {
        id: PaneId::new(id),
        index,
        active: index == 0,
        command: "zsh".into(),
        path: "/tmp".into(),
        title: String::new(),
        zoomed: false,
    }
}

fn window(id: &str, index: u32, panes: Vec<Pane>) -> Window {
    Window { id: WindowId::new(id), index, name: format!("win{index}"), active: index == 0, layout: String::new(), panes }
}

fn snapshot() -> Snapshot {
    Snapshot {
        sessions: vec![
            Session {
                id: SessionId::new("$1"),
                name: "main".into(),
                attached: true,
                windows: vec![
                    window("@1", 0, vec![pane("%1", 0), pane("%2", 1)]),
                    window("@2", 1, vec![pane("%3", 0)]),
                ],
            },
            Session {
                id: SessionId::new("$2"),
                name: "dotfiles".into(),
                attached: false,
                windows: vec![window("@3", 0, vec![pane("%4", 0)])],
            },
        ],
        client_session: None,
        totals: Totals { sessions: 2, windows: 3, panes: 4 },
    }
}

fn targets(rows: &[RowSpec]) -> Vec<(u16, ClickTarget)> {
    rows.iter().map(|r| (r.height, r.target.clone())).collect()
}

#[test]
fn session_rows_end_with_the_new_session_row() {
    let app = App::new(snapshot());
    let (rows, selected) = app.session_rows();
    assert_eq!(
        targets(&rows),
        vec![
            (1, ClickTarget::Session(SessionId::new("$1"))),
            (1, ClickTarget::Session(SessionId::new("$2"))),
            (1, ClickTarget::NewSessionRow),
        ]
    );
    assert_eq!(selected, Some(0));
}

#[test]
fn pane_rows_are_two_lines_high() {
    let mut app = App::new(snapshot());
    app.focus = Column::Panes;
    app.move_selection(1);
    let (rows, selected) = app.pane_rows();
    assert_eq!(
        targets(&rows),
        vec![
            (2, ClickTarget::Pane(PaneId::new("%1"))),
            (2, ClickTarget::Pane(PaneId::new("%2"))),
            (1, ClickTarget::NewSplitRow),
        ]
    );
    assert_eq!(selected, Some(1));
}

#[test]
fn window_rows_carry_the_insertion_line_of_a_gap() {
    let app = App::new(snapshot());
    let (rows, selected) = app.window_rows(&None);
    assert_eq!(
        targets(&rows),
        vec![
            (1, ClickTarget::Window(WindowId::new("@1"))),
            (1, ClickTarget::Window(WindowId::new("@2"))),
            (1, ClickTarget::NewWindowRow),
        ]
    );
    assert_eq!(selected, Some(0));

    let (rows, selected) = app.window_rows(&Some((WindowId::new("@1"), false)));
    assert_eq!(
        targets(&rows),
        vec![
            (1, ClickTarget::WindowGap { anchor: WindowId::new("@1"), after: false }),
            (1, ClickTarget::Window(WindowId::new("@1"))),
            (1, ClickTarget::Window(WindowId::new("@2"))),
            (1, ClickTarget::NewWindowRow),
        ]
    );
    assert_eq!(selected, Some(1));

    let (rows, _) = app.window_rows(&Some((WindowId::new("@2"), true)));
    assert_eq!(rows[2].target, ClickTarget::WindowGap { anchor: WindowId::new("@2"), after: true });
    assert_eq!(rows.len(), 4);
}

#[test]
fn layout_scrolls_to_the_selection_and_lists_visible_rows() {
    let rows: Vec<RowSpec> = (0..6)
        .map(|i| RowSpec { height: 2, target: ClickTarget::Pane(PaneId::new(&format!("%{i}"))) })
        .collect();
    let inner = Rect { x: 1, y: 3, width: 20, height: 5 };
    let (offset, hits) = layout_column(&rows, Some(4), 0, inner);
    assert_eq!(offset, 3);
    assert_eq!(hits.len(), 3);
    assert_eq!(hits[0], (Rect { x: 1, y: 3, width: 20, height: 2 }, ClickTarget::Pane(PaneId::new("%3"))));
    assert_eq!(hits[1].0, Rect { x: 1, y: 5, width: 20, height: 2 });
    // The last row is cut to the one line that is left.
    assert_eq!(hits[2], (Rect { x: 1, y: 7, width: 20, height: 1 }, ClickTarget::Pane(PaneId::new("%5"))));
}

#[test]
fn layout_of_an_empty_column_registers_nothing() {
    let (offset, hits) = layout_column(&[], None, 4, Rect { x: 0, y: 0, width: 10, height: 10 });
    assert_eq!(offset, 0);
    assert!(hits.is_empty());
}

#[test]
fn titles_name_the_selected_session_and_window() {
    let mut app = App::new(snapshot());
    assert_eq!(windows_title(&app), "WINDOWS \u{b7} main");
    assert_eq!(panes_title(&app), "PANES \u{b7} 0:win0");
    app.selected_session = None;
    assert_eq!(windows_title(&app), "WINDOWS");
    assert_eq!(panes_title(&app), "PANES");
}

#[test]
fn header_shows_title_and_totals() {
    assert_eq!(header_left(), "tmux :: manager");
    assert_eq!(
        totals_text(Totals { sessions: 2, windows: 13, panes: 104 }),
        "2 sessions \u{b7} 13 windows \u{b7} 104 panes"
    );
    assert_eq!(header_padding(80, 15, 20), 45);
    assert_eq!(header_padding(30, 15, 20), 1);
    assert_eq!(header_padding(35, 15, 20), 1);
}

#[test]
fn footer_hint_follows_the_mode() {
    assert!(footer_hint(&Mode::Normal, None).contains("attach"));
    let input = Mode::Input(InputOverlay::new(InputKind::NewSession, ""));
    assert_eq!(footer_hint(&input, None), "\u{21b5} confirm   Esc cancel");
}

#[test]
fn small_screens_get_a_centered_notice() {
    assert!(too_small(Rect { x: 0, y: 0, width: 69, height: 40 }));
    assert!(too_small(Rect { x: 0, y: 0, width: 100, height: 14 }));
    assert!(!too_small(Rect { x: 0, y: 0, width: 70, height: 15 }));
    assert_eq!(
        notice_rect(Rect { x: 0, y: 0, width: 40, height: 10 }),
        Some(Rect { x: 12, y: 5, width: 16, height: 1 })
    );
    assert_eq!(
        notice_rect(Rect { x: 2, y: 1, width: 10, height: 3 }),
        Some(Rect { x: 2, y: 2, width: 10, height: 1 })
    );
    assert_eq!(notice_rect(Rect { x: 0, y: 0, width: 10, height: 0 }), None);
}

#[test]
fn toast_sits_just_above_the_footer() {
    let area = Rect { x: 0, y: 0, width: 80, height: 24 };
    assert_eq!(toast_rect(area, 23), Rect { x: 0, y: 22, width: 80, height: 1 });
    assert_eq!(toast_rect(area, 0), Rect { x: 0, y: 0, width: 80, height: 1 });
}
