use tmux_ui_manager::model::{Pane, Session, Window};
use tmux_ui_manager::tmux::ids::{PaneId, SessionId, WindowId};
use tmux_ui_manager::ui::columns::{
    abbreviate_home, clamp_scroll, insertion_color, insertion_fill, pseudo_row_colors, row_padding,
    row_style, session_meta, status_dot, window_meta,
};
use tmux_ui_manager::ui::theme::Theme;

#[test]
fn abbreviate_home_replaces_prefix() {
    assert_eq!(
        abbreviate_home("/Users/binara/dev/api-server", Some("/Users/binara")),
        "~/dev/api-server"
    );
}

#[test]
fn abbreviate_home_leaves_unrelated_paths_untouched() {
    assert_eq!(abbreviate_home("/opt/data", Some("/Users/binara")), "/opt/data");
}

#[test]
fn abbreviate_home_edge_cases() {
    assert_eq!(abbreviate_home("/Users/binara", Some("/Users/binara")), "~");
    assert_eq!(abbreviate_home("/Users/binara2/x", Some("/Users/binara")), "~2/x");
    assert_eq!(abbreviate_home("/tmp", Some("")), "/tmp");
    assert_eq!(abbreviate_home("/tmp", None), "/tmp");
    assert_eq!(abbreviate_home("/a", Some("/a/b")), "/a");
}

#[test]
fn two_part_line_pads_between_left_and_right() {
    // "name" on the left, "meta" on the right, in a row 20 wide: the two parts
    // and the padding between them fill the 18 cells left after the gutter.
    let total = "name".chars().count() + row_padding(4, 4, 20) + "meta".chars().count();
    assert_eq!(total, 18);
}

#[test]
fn row_padding_keeps_one_space_before_meta_text() {
    assert_eq!(row_padding(30, 10, 20), 1);
    assert_eq!(row_padding(30, 0, 20), 0);
    assert_eq!(row_padding(0, 0, 1), 0);
    assert_eq!(row_padding(3, 0, 10), 5);
}

#[test]
fn clamp_scroll_snaps_down_when_selection_is_above_the_offset() {
    let heights = vec![1u16; 10];
    assert_eq!(clamp_scroll(5, Some(2), &heights, 4), 2);
}

#[test]
fn clamp_scroll_advances_when_selection_is_below_the_visible_window() {
    let heights = vec![1u16; 10];
    assert_eq!(clamp_scroll(0, Some(7), &heights, 4), 4);
}

#[test]
fn clamp_scroll_accounts_for_two_row_pane_heights() {
    let heights = vec![2, 2, 2, 1];
    assert_eq!(clamp_scroll(0, Some(2), &heights, 5), 1);
}

#[test]
fn clamp_scroll_stays_put_when_nothing_selected() {
    let heights = vec![1u16; 3];
    assert_eq!(clamp_scroll(1, None, &heights, 2), 1);
}

#[test]
fn clamp_scroll_with_nothing_selected_stays_within_the_rows() {
    let heights = vec![1u16; 3];
    assert_eq!(clamp_scroll(9, None, &heights, 2), 3);
}

#[test]
fn clamp_scroll_shows_the_selection_in_a_tiny_column() {
    // A row taller than the column never fits: the offset walks on to it.
    let heights = vec![1u16, 1, 5];
    assert_eq!(clamp_scroll(0, Some(2), &heights, 2), 2);
}

fn pane(id: &str, active: bool, zoomed: bool, command: &str) -> Pane {
    Pane {
        id: PaneId::new(id),
        index: 0,
        active,
        command: command.to_string(),
        path: "/tmp".to_string(),
        title: String::new(),
        zoomed,
    }
}

#[test]
fn meta_texts_count_windows_and_show_the_active_command() {
    let w = Window {
        id: WindowId::new("@1"),
        index: 0,
        name: "w".to_string(),
        active: true,
        layout: String::new(),
        panes: vec![pane("%1", false, false, "zsh"), pane("%2", true, false, "nvim")],
    };
    assert_eq!(window_meta(&w), "nvim");
    let zoomed = Window { panes: vec![pane("%3", true, true, "htop")], ..w };
    assert_eq!(window_meta(&zoomed), "htop Z");
    let s = Session { id: SessionId::new("$1"), name: "s".to_string(), attached: false, windows: vec![zoomed] };
    assert_eq!(session_meta(&s), "1 win");
    let none_active = Window {
        id: WindowId::new("@2"),
        index: 1,
        name: "x".to_string(),
        active: false,
        layout: String::new(),
        panes: vec![pane("%4", false, false, "zsh")],
    };
    assert_eq!(window_meta(&none_active), "");
}

#[test]
fn insertion_line_fills_all_but_the_gutter() {
    assert_eq!(insertion_fill(20), 18);
    assert_eq!(insertion_fill(2), 1);
    assert_eq!(insertion_fill(0), 1);
}

#[test]
fn row_colours_follow_selection_focus_and_drop_state() {
    let t = Theme::default();
    let focused = row_style(&t, true, true, false, false);
    assert_eq!(focused.bg, t.surface0);
    assert_eq!(focused.gutter, Some(t.green));
    assert!(focused.bold_name);
    let elsewhere = row_style(&t, true, false, false, false);
    assert_eq!(elsewhere.bg, t.mantle);
    assert_eq!(elsewhere.gutter, None);
    assert!(!elsewhere.bold_name);
    let drop = row_style(&t, false, false, true, true);
    assert_eq!(drop.bg, t.surface1);
    assert_eq!(drop.gutter, Some(t.blue));
    assert_eq!(row_style(&t, false, true, false, false).bg, t.base);
    assert_eq!(row_style(&t, false, true, false, true).bg, t.mantle);
    assert_eq!(status_dot(&t, true), ("\u{25cf}", t.green));
    assert_eq!(status_dot(&t, false), ("\u{25cb}", t.subtext0));
    assert_eq!(pseudo_row_colors(&t, false, false), (t.overlay0, t.base));
    assert_eq!(pseudo_row_colors(&t, false, true), (t.overlay0, t.mantle));
    assert_eq!(pseudo_row_colors(&t, true, true), (t.blue, t.surface1));
    assert_eq!(insertion_color(&t, true), t.blue);
    assert_eq!(insertion_color(&t, false), t.overlay0);
}
