use tmux_ui_manager::tmux::ids::SessionId;
use tmux_ui_manager::tmux::snapshot::{client_session_from_output, parse_list_panes, snapshot_format_string};

/// One `list-panes -a` line as tmux 3.4 prints it: the unit-separator byte of
/// the template comes back as the four characters `\037`.
fn escaped_line(fields: [&str; 15]) -> String {
    fields.join("\\037")
}

/// Two sessions, listed with the unicode-named one first: "dótfïles ☕"
/// (one window, one pane) and "main" (a plain window "editor", and "logs and
/// stuff" split into two panes with the first zoomed and given a title).
fn fixture() -> String {
    let lines = [
        escaped_line([
            "$1", "d\u{f3}tf\u{ef}les \u{2615}", "0", "@2", "0", "zsh", "1", "b25f,80x24,0,0,2",
            "%3", "0", "1", "zsh", "/home/user/dotfiles", "host", "0",
        ]),
        escaped_line([
            "$0", "main", "1", "@0", "0", "editor", "0", "c1a2,80x24,0,0,0", "%0", "0", "1", "nvim",
            "/home/user/project", "host", "0",
        ]),
        escaped_line([
            "$0", "main", "1", "@1", "1", "logs and stuff", "1", "a3b4,80x24,0,0{40x24,0,0,1,39x24,41,0,2}",
            "%1", "0", "1", "tail", "/var/log", "left pane title", "1",
        ]),
        escaped_line([
            "$0", "main", "1", "@1", "1", "logs and stuff", "1", "a3b4,80x24,0,0{40x24,0,0,1,39x24,41,0,2}",
            "%2", "1", "0", "zsh", "/var/log", "host", "1",
        ]),
    ];
    lines.join("\n") + "\n"
}

/// One pane, from a tmux that passes the separator byte through unescaped.
fn unescaped_fixture() -> String {
    [
        "$0", "main", "1", "@0", "0", "editor", "1", "c1a2,80x24,0,0,0", "%0", "0", "1", "bash",
        "/tmp/project", "host", "0",
    ]
    .join("\u{1f}")
        + "\n"
}

#[test]
fn groups_rows_into_sessions_windows_panes_preserving_tmux_order() {
    let snapshot = parse_list_panes(&fixture(), None).expect("fixture should parse");

    assert_eq!(snapshot.totals.sessions, 2);
    assert_eq!(snapshot.totals.windows, 3);
    assert_eq!(snapshot.totals.panes, 4);
    assert_eq!(snapshot.sessions.len(), 2);

    let unicode_session = &snapshot.sessions[0];
    assert_eq!(unicode_session.id.as_target(), "$1");
    assert_eq!(unicode_session.name, "d\u{f3}tf\u{ef}les \u{2615}");
    assert!(!unicode_session.attached);
    assert_eq!(unicode_session.windows.len(), 1);

    let main_session = &snapshot.sessions[1];
    assert_eq!(main_session.id.as_target(), "$0");
    assert_eq!(main_session.name, "main");
    assert_eq!(main_session.windows.len(), 2);
}

#[test]
fn window_with_space_in_name_and_two_panes_parses_correctly() {
    let snapshot = parse_list_panes(&fixture(), None).expect("fixture should parse");
    let main_session = &snapshot.sessions[1];

    let editor = &main_session.windows[0];
    assert_eq!(editor.id.as_target(), "@0");
    assert_eq!(editor.name, "editor");
    assert_eq!(editor.panes.len(), 1);

    let logs = &main_session.windows[1];
    assert_eq!(logs.id.as_target(), "@1");
    assert_eq!(logs.name, "logs and stuff");
    assert_eq!(logs.panes.len(), 2);
}

#[test]
fn zoomed_flag_and_explicit_pane_title_are_captured() {
    let snapshot = parse_list_panes(&fixture(), None).expect("fixture should parse");
    let logs = &snapshot.sessions[1].windows[1];

    let left = &logs.panes[0];
    assert_eq!(left.id.as_target(), "%1");
    assert!(left.active);
    assert!(left.zoomed);
    assert_eq!(left.title, "left pane title");

    let right = &logs.panes[1];
    assert_eq!(right.id.as_target(), "%2");
    assert!(!right.active);
    assert!(right.zoomed);
}

#[test]
fn client_session_is_threaded_through_when_provided() {
    let snapshot = parse_list_panes(&fixture(), Some(SessionId::new("$0"))).expect("fixture should parse");
    assert_eq!(snapshot.client_session.unwrap().as_target(), "$0");
}

#[test]
fn rejects_a_line_with_the_wrong_field_count() {
    let err = parse_list_panes("$0\\037main\\0370", None).expect_err("should fail to parse");
    assert!(err.message().contains("line 1"));
}

#[test]
fn blank_trailing_lines_are_ignored() {
    let with_trailing_newline = format!("{}\n", fixture());
    let snapshot = parse_list_panes(&with_trailing_newline, None).expect("should still parse");
    assert_eq!(snapshot.totals.sessions, 2);
}

#[test]
fn parses_correctly_when_tmux_does_not_escape_the_separator() {
    let snapshot = parse_list_panes(&unescaped_fixture(), None).expect("fixture should parse");

    assert_eq!(snapshot.totals.sessions, 1);
    assert_eq!(snapshot.totals.windows, 1);
    assert_eq!(snapshot.totals.panes, 1);

    let session = &snapshot.sessions[0];
    assert_eq!(session.id.as_target(), "$0");
    assert_eq!(session.name, "main");

    let window = &session.windows[0];
    assert_eq!(window.id.as_target(), "@0");
    assert_eq!(window.name, "editor");

    let pane = &window.panes[0];
    assert_eq!(pane.id.as_target(), "%0");
    assert_eq!(pane.command, "bash");
    assert_eq!(pane.path, "/tmp/project");
}

#[test]
fn parse_errors_name_the_line_and_the_bad_field() {
    let good = escaped_line([
        "$0", "main", "1", "@0", "0", "editor", "1", "l", "%0", "0", "1", "bash", "/", "t", "0",
    ]);
    let bad_index = escaped_line([
        "$0", "main", "1", "@0", "x1", "editor", "1", "l", "%0", "0", "1", "bash", "/", "t", "0",
    ]);
    let err = parse_list_panes(&format!("{good}\n\n{bad_index}\n"), None).expect_err("bad index");
    assert_eq!(err.line_number, 3);
    assert_eq!(err.reason, "expected numeric window_index, got \"x1\"");
    assert_eq!(
        err.message(),
        "malformed list-panes output at line 3: expected numeric window_index, got \"x1\""
    );

    let empty_flag = escaped_line([
        "$0", "main", "", "@0", "0", "editor", "1", "l", "%0", "0", "1", "bash", "/", "t", "0",
    ]);
    let err = parse_list_panes(&empty_flag, None).expect_err("empty flag");
    assert_eq!(err.reason, "expected session_attached flag, got empty string");

    let err = parse_list_panes("a\\037b", None).expect_err("two fields");
    assert_eq!(err.reason, "expected 15 fields, got 2");
}

#[test]
fn crlf_lines_and_any_nonzero_flag_parse() {
    let line = escaped_line([
        "$5", "s", "2", "@5", "7", "w", "yes", "l", "%5", "3", "0", "vim", "/x", "t", "0",
    ]);
    let snapshot = parse_list_panes(&format!("{line}\r\n"), None).expect("should parse");
    let s = &snapshot.sessions[0];
    assert!(s.attached);
    assert!(s.windows[0].active);
    assert_eq!(s.windows[0].index, 7);
    assert_eq!(s.windows[0].panes[0].index, 3);
    assert!(!s.windows[0].panes[0].active);
}

#[test]
fn empty_output_is_an_empty_snapshot() {
    let snapshot = parse_list_panes("", None).expect("empty parses");
    assert_eq!(snapshot.sessions.len(), 0);
    assert_eq!(snapshot.totals.panes, 0);
}

#[test]
fn format_string_lists_the_fifteen_fields_in_order() {
    let f = snapshot_format_string();
    let parts: Vec<&str> = f.split('\u{1f}').collect();
    assert_eq!(parts.len(), 15);
    assert_eq!(parts[0], "#{session_id}");
    assert_eq!(parts[11], "#{pane_current_command}");
    assert_eq!(parts[14], "#{window_zoomed_flag}");
}

#[test]
fn client_session_comes_from_trimmed_output() {
    assert_eq!(client_session_from_output(true, " $3\n").unwrap().as_target(), "$3");
    assert!(client_session_from_output(true, "  \n").is_none());
    assert!(client_session_from_output(false, "$3").is_none());
}

#[test]
fn bad_index_text_is_quoted_as_debug_shows_it() {
    let field = "a\"b\\c\u{7}";
    let line = escaped_line([
        "$0", "main", "1", "@0", "0", "editor", "1", "l", "%0", field, "1", "bash", "/", "t", "0",
    ]);
    let err = parse_list_panes(&line, None).expect_err("bad pane index");
    assert_eq!(err.reason, format!("expected numeric pane_index, got {:?}", field));
}

#[test]
fn blank_lines_anywhere_change_no_rows() {
    let lines: Vec<String> = fixture().lines().map(|l| l.to_string()).collect();
    let spaced = format!("\n{}\n\n{}\n\n\n{}\n{}", lines[0], lines[1], lines[2], lines[3]);
    let a = parse_list_panes(&fixture(), None).expect("fixture should parse");
    let b = parse_list_panes(&spaced, None).expect("spaced fixture should parse");
    assert_eq!(a.totals, b.totals);
    assert_eq!(a.sessions.len(), b.sessions.len());
    assert_eq!(b.sessions[1].windows[1].panes[1].id.as_target(), "%2");
}

#[test]
fn a_trailing_carriage_return_is_kept_without_a_newline() {
    let line = escaped_line([
        "$0", "main", "1", "@0", "0", "editor", "1", "l", "%0", "0", "1", "bash", "/", "t", "0",
    ]);
    let without = parse_list_panes(&format!("{line}\r"), None).expect("parses");
    let with = parse_list_panes(&format!("{line}\r\n"), None).expect("parses");
    // Without the newline the last field reads "0\r", which is not "0".
    assert!(without.sessions[0].windows[0].panes[0].zoomed);
    assert!(!with.sessions[0].windows[0].panes[0].zoomed);
}
