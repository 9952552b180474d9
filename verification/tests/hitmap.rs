use tmux_ui_manager::tmux::ids::WindowId;
use tmux_ui_manager::ui::drag::DropTarget;
use tmux_ui_manager::ui::geometry::Rect;
use tmux_ui_manager::ui::screen::toast_rect;
use tmux_ui_manager::ui::hitmap::{hit_test, rect_contains, ClickTarget, HitMap};

fn wid(s: &str) -> WindowId {
    WindowId::new(s)
}

fn rect(x: u16, y: u16, width: u16, height: u16) -> Rect {
    Rect { x, y, width, height }
}

#[test]
fn hit_test_finds_the_containing_rect() {
    let map: HitMap = vec![
        (rect(0, 0, 10, 1), ClickTarget::NewSessionRow),
        (rect(0, 1, 10, 1), ClickTarget::Window(wid("@1"))),
    ];
    assert_eq!(hit_test(&map, 3, 1), Some(ClickTarget::Window(wid("@1"))));
    assert_eq!(hit_test(&map, 3, 0), Some(ClickTarget::NewSessionRow));
}

#[test]
fn hit_test_misses_outside_every_rect() {
    let map: HitMap = vec![(rect(0, 0, 10, 1), ClickTarget::NewSessionRow)];
    assert_eq!(hit_test(&map, 3, 5), None);
    assert_eq!(hit_test(&map, 20, 0), None);
}

#[test]
fn rect_contains_excludes_the_far_edge() {
    let r = rect(5, 5, 3, 2);
    assert!(rect_contains(&r, 5, 5));
    assert!(rect_contains(&r, 7, 6));
    assert!(!rect_contains(&r, 8, 6));
    assert!(!rect_contains(&r, 5, 7));
}

#[test]
fn hit_test_takes_the_first_of_overlapping_rects() {
    let map: HitMap = vec![
        (rect(0, 0, 10, 10), ClickTarget::NewWindowRow),
        (rect(0, 0, 5, 5), ClickTarget::NewSplitRow),
    ];
    assert_eq!(hit_test(&map, 1, 1), Some(ClickTarget::NewWindowRow));
}

#[test]
fn rect_at_the_last_cell_stops_there() {
    // A toast row laid out from the far right is clamped to the cells that exist.
    let r = toast_rect(Rect { x: 65530, y: 0, width: 100, height: 3 }, 1);
    assert_eq!(r.width, 5);
    assert!(rect_contains(&r, 65534, 0));
    assert!(!rect_contains(&r, 65535, 0));
}

#[test]
fn click_targets_map_to_drop_targets() {
    assert_eq!(ClickTarget::NewSplitRow.as_drop_target(), None);
    assert_eq!(
        ClickTarget::WindowGap { anchor: wid("@2"), after: true }.as_drop_target(),
        Some(DropTarget::WindowGap { anchor: wid("@2"), after: true })
    );
    assert_eq!(ClickTarget::NewSessionRow.as_drop_target(), Some(DropTarget::NewSessionRow));
}
