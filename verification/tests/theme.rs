use tmux_ui_manager::ui::theme::{color_options, hex, parse_hex_color, Rgb, Theme};

fn rgb(r: u8, g: u8, b: u8) -> Rgb {
    Rgb { r, g, b }
}

#[test]
fn base_matches_mocha_spec() {
    assert_eq!(Theme::default().base, rgb(0x1e, 0x1e, 0x2e));
}

#[test]
fn accent_is_blue() {
    assert_eq!(Theme::default().accent(), rgb(0x89, 0xb4, 0xfa));
}

#[test]
fn parse_hex_color_accepts_lowercase_and_uppercase_rrggbb() {
    assert_eq!(parse_hex_color("#89b4fa"), Some(rgb(0x89, 0xb4, 0xfa)));
    assert_eq!(parse_hex_color("#89B4FA"), Some(rgb(0x89, 0xb4, 0xfa)));
}

#[test]
fn parse_hex_color_rejects_anything_else() {
    assert_eq!(parse_hex_color("89b4fa"), None);
    assert_eq!(parse_hex_color("#89b4f"), None);
    assert_eq!(parse_hex_color("#89b4faa"), None);
    assert_eq!(parse_hex_color("#zzzzzz"), None);
    assert_eq!(parse_hex_color("blue"), None);
}

#[test]
fn apply_option_overrides_only_the_named_slot() {
    let mut theme = Theme::default();
    theme.apply_option("@manager-color-accent", "#ff0000");
    assert_eq!(theme.accent(), rgb(0xff, 0, 0));
    assert_eq!(theme.bg(), rgb(0x1e, 0x1e, 0x2e));
}

#[test]
fn apply_option_ignores_unknown_options_and_bad_values() {
    let mut theme = Theme::default();
    let before = theme.bg();
    theme.apply_option("@manager-color-nonsense", "#ff0000");
    theme.apply_option("@manager-color-bg", "not-a-color");
    assert_eq!(theme.bg(), before);
}

#[test]
fn parse_hex_color_sign_and_non_ascii_edges() {
    // Each channel is read as `from_str_radix` reads it, which takes a leading `+`.
    assert_eq!(parse_hex_color("#+1b4fa"), Some(rgb(1, 0xb4, 0xfa)));
    assert_eq!(parse_hex_color("#-1b4fa"), None);
    assert_eq!(parse_hex_color("#\u{e9}9b4fa"), None);
    assert_eq!(parse_hex_color("#000000"), Some(rgb(0, 0, 0)));
    assert_eq!(parse_hex_color("#FfFfFf"), Some(rgb(0xff, 0xff, 0xff)));
}

#[test]
fn every_semantic_slot_can_be_overridden() {
    let defaults = Theme::default();
    for name in color_options() {
        let mut theme = Theme::default();
        theme.apply_option(name, "#010203");
        assert_ne!(theme, defaults, "{name} should change the theme");
    }
    let mut theme = Theme::default();
    theme.apply_option("@manager-color-danger", "#010203");
    assert_eq!(theme.danger(), rgb(1, 2, 3));
    theme.apply_option("@manager-color-selection-bg", "#040506");
    assert_eq!(theme.selection_bg(), rgb(4, 5, 6));
    theme.apply_option("@manager-color-panel-title", "#070809");
    assert_eq!(theme.panel_title(), rgb(7, 8, 9));
}

#[test]
fn the_last_override_of_a_slot_wins() {
    let mut theme = Theme::default();
    theme.apply_option("@manager-color-border", "#111111");
    theme.apply_option("@manager-color-border", "#222222");
    assert_eq!(theme.border(), rgb(0x22, 0x22, 0x22));
}

#[test]
fn hex_splits_into_channels() {
    assert_eq!(hex(0x123456), rgb(0x12, 0x34, 0x56));
    assert_eq!(Theme::default().fg(), rgb(0xcd, 0xd6, 0xf4));
    assert_eq!(Theme::default().meta(), rgb(0xa6, 0xad, 0xc8));
    assert_eq!(Theme::default().active(), rgb(0xa6, 0xe3, 0xa1));
}
