use tmux_ui_manager::version::{parse_tmux_version, version_supported};

#[test]
fn parses_plain_version() {
    assert_eq!(parse_tmux_version("tmux 3.4\n"), Some((3, 4)));
}

#[test]
fn parses_version_with_letter_suffix() {
    assert_eq!(parse_tmux_version("tmux 3.3a\n"), Some((3, 3)));
}

#[test]
fn rejects_unparseable_output() {
    assert_eq!(parse_tmux_version("not tmux at all"), None);
}

#[test]
fn version_edge_cases() {
    assert_eq!(parse_tmux_version(""), None);
    assert_eq!(parse_tmux_version("   \n"), None);
    assert_eq!(parse_tmux_version("tmux 3"), None);
    assert_eq!(parse_tmux_version("tmux 3."), None);
    assert_eq!(parse_tmux_version("tmux next-3.5"), None);
    assert_eq!(parse_tmux_version("tmux 10.12.1"), Some((10, 12)));
    assert_eq!(parse_tmux_version("3.2"), Some((3, 2)));
    assert_eq!(parse_tmux_version("tmux +3.2"), Some((3, 2)));
    assert_eq!(parse_tmux_version("tmux 4294967296.1"), None);
    assert_eq!(parse_tmux_version("tmux 1.4294967295"), Some((1, 4294967295)));
}

#[test]
fn oldest_supported_version_is_three_two() {
    assert!(version_supported(3, 2));
    assert!(version_supported(3, 4));
    assert!(version_supported(4, 0));
    assert!(!version_supported(3, 1));
    assert!(!version_supported(2, 9));
}
