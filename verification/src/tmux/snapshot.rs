//! Parsing of the one-shot `list-panes -a -F ...` query into a [`Snapshot`].
//!
//! The query asks tmux for fifteen fields per pane, separated by the ASCII Unit
//! Separator (U+001F). Depending on its version tmux either passes that byte
//! through as is or escapes it into the four-character text `\037`; both forms
//! end a field.
use vstd::prelude::*;

use crate::model::{opt_id_view, lemma_first_index, lemma_index_of_first, session_ids, session_position, view_panes, view_sessions, view_windows, window_ids, window_position, Pane, PaneView, Session, SessionView, Snapshot, SnapshotView, Totals, Window, WindowView};
use crate::text::{trim, trimmed, chars_of, debug_quote, debug_quoted, decimal, parse_unsigned, parse_unsigned_in, push_char, push_decimal, string_of};
use crate::tmux::ids::{PaneId, SessionId, WindowId};

verus! {

pub const FIELD_COUNT: usize = 15;

/// The separator byte put between the fields of the `-F` template.
pub open spec fn template_sep() -> char {
    '\u{1f}'
}

/// The `-F` template for the snapshot query: the fifteen field references,
/// separated by U+001F. Field order matches `parse_row`.
pub open spec fn format_template() -> Seq<char> {
    let sep = seq![template_sep()];
    "#{session_id}"@ + sep + "#{session_name}"@ + sep + "#{session_attached}"@ + sep
        + "#{window_id}"@ + sep + "#{window_index}"@ + sep + "#{window_name}"@ + sep
        + "#{window_active}"@ + sep + "#{window_layout}"@ + sep + "#{pane_id}"@ + sep
        + "#{pane_index}"@ + sep + "#{pane_active}"@ + sep + "#{pane_current_command}"@ + sep
        + "#{pane_current_path}"@ + sep + "#{pane_title}"@ + sep + "#{window_zoomed_flag}"@
}

/// Builds the `-F` format string for the snapshot query.
pub fn snapshot_format_string() -> (s: String)
    ensures
        s@ == format_template(),
{
    let names = [
        "#{session_id}",
        "#{session_name}",
        "#{session_attached}",
        "#{window_id}",
        "#{window_index}",
        "#{window_name}",
        "#{window_active}",
        "#{window_layout}",
        "#{pane_id}",
        "#{pane_index}",
        "#{pane_active}",
        "#{pane_current_command}",
        "#{pane_current_path}",
        "#{pane_title}",
        "#{window_zoomed_flag}",
    ];
    let mut s = String::new();
    s.append(names[0]);
    let mut i: usize = 1;
    while i < 15
        invariant
            1 <= i <= 15,
            names@.len() == 15,
            s@ == template_prefix(names@.map_values(|n: &str| n@), i as int),
        decreases 15 - i,
    {
        push_char(&mut s, '\u{1f}');
        s.append(names[i]);
        i = i + 1;
    }
    proof {
        let v = names@.map_values(|n: &str| n@);
        assert(v[0] == "#{session_id}"@);
        reveal_with_fuel(template_prefix, 16);
        assert(s@ =~= format_template());
    }
    s
}

/// The first `k` template names joined by the separator.
pub open spec fn template_prefix(names: Seq<Seq<char>>, k: int) -> Seq<char>
    decreases k,
{
    if k <= 1 {
        names[0]
    } else {
        template_prefix(names, k - 1) + seq![template_sep()] + names[k - 1]
    }
}

// ---------------------------------------------------------------------------
// Lines

/// A line that ended with `\n` loses one trailing `\r` as well.
pub open spec fn strip_cr(l: Seq<char>) -> Seq<char> {
    if l.len() > 0 && l.last() == '\r' {
        l.drop_last()
    } else {
        l
    }
}

/// The lines of `s` after the partial line `cur`, as `str::lines` splits them:
/// at each `\n` (with a `\r` before it removed), and without an empty last line.
pub open spec fn lines_from(s: Seq<char>, cur: Seq<char>) -> Seq<Seq<char>>
    decreases s.len(),
{
    if s.len() == 0 {
        if cur.len() == 0 {
            seq![]
        } else {
            seq![cur]
        }
    } else if s[0] == '\n' {
        seq![strip_cr(cur)] + lines_from(s.drop_first(), seq![])
    } else {
        lines_from(s.drop_first(), cur.push(s[0]))
    }
}

pub open spec fn text_lines(s: Seq<char>) -> Seq<Seq<char>> {
    lines_from(s, seq![])
}

pub open spec fn view_char_vecs(v: Seq<Vec<char>>) -> Seq<Seq<char>> {
    Seq::new(v.len(), |i: int| v[i]@)
}

/// Splits `cs` into lines as `str::lines` does.
pub fn split_lines(cs: &Vec<char>) -> (lines: Vec<Vec<char>>)
    ensures
        view_char_vecs(lines@) == text_lines(cs@),
        lines@.len() <= cs@.len(),
{
    let mut lines: Vec<Vec<char>> = Vec::new();
    let mut cur: Vec<char> = Vec::new();
    let mut i: usize = 0;
    assert(cs@.skip(0) =~= cs@);
    while i < cs.len()
        invariant
            0 <= i <= cs@.len(),
            text_lines(cs@) == view_char_vecs(lines@) + lines_from(cs@.skip(i as int), cur@),
            lines@.len() + (if cur@.len() > 0 { 1int } else { 0 }) <= i,
        decreases cs.len() - i,
    {
        let c = cs[i];
        assert(cs@.skip(i as int).drop_first() =~= cs@.skip(i + 1));
        if c == '\n' {
            let mut line = cur;
            if line.len() > 0 && line[line.len() - 1] == '\r' {
                line.pop();
            }
            assert(line@ == strip_cr(cur@)) by {
                if cur@.len() > 0 && cur@.last() == '\r' {
                    assert(line@ =~= cur@.drop_last());
                }
            }
            let ghost before = view_char_vecs(lines@);
            lines.push(line);
            assert(view_char_vecs(lines@) =~= before.push(strip_cr(cur@)));
            assert(text_lines(cs@) =~= view_char_vecs(lines@) + lines_from(
                cs@.skip(i + 1),
                seq![],
            ));
            cur = Vec::new();
            assert(cur@ =~= seq![]);
        } else {
            cur.push(c);
        }
        i = i + 1;
    }
    if cur.len() > 0 {
        let ghost before = view_char_vecs(lines@);
        lines.push(cur);
        assert(view_char_vecs(lines@) =~= before.push(cur@));
    }
    assert(text_lines(cs@) =~= view_char_vecs(lines@));
    lines
}

// ---------------------------------------------------------------------------
// Fields

pub open spec fn starts_with_escaped_sep(s: Seq<char>) -> bool {
    s.len() >= 4 && s[0] == '\\' && s[1] == '0' && s[2] == '3' && s[3] == '7'
}

/// The fields of `s` after the partial field `cur`: a field ends at every
/// `\037` text and at every raw U+001F, scanning left to right.
pub open spec fn fields_from(s: Seq<char>, cur: Seq<char>) -> Seq<Seq<char>>
    decreases s.len(),
{
    if s.len() == 0 {
        seq![cur]
    } else if starts_with_escaped_sep(s) {
        seq![cur] + fields_from(s.skip(4), seq![])
    } else if s[0] == template_sep() {
        seq![cur] + fields_from(s.drop_first(), seq![])
    } else {
        fields_from(s.drop_first(), cur.push(s[0]))
    }
}

pub open spec fn split_fields(line: Seq<char>) -> Seq<Seq<char>> {
    fields_from(line, seq![])
}

/// Splits one output line into its fields.
pub fn split_line_fields(line: &Vec<char>) -> (fields: Vec<Vec<char>>)
    ensures
        view_char_vecs(fields@) == split_fields(line@),
{
    let mut fields: Vec<Vec<char>> = Vec::new();
    let mut cur: Vec<char> = Vec::new();
    let mut i: usize = 0;
    let n = line.len();
    assert(line@.skip(0) =~= line@);
    while i < n
        invariant
            n == line@.len(),
            0 <= i <= n,
            split_fields(line@) == view_char_vecs(fields@) + fields_from(
                line@.skip(i as int),
                cur@,
            ),
        decreases n - i,
    {
        let ghost rest = line@.skip(i as int);
        if n - i >= 4 && line[i] == '\\' && line[i + 1] == '0' && line[i + 2] == '3' && line[i
            + 3] == '7' {
            assert(rest.skip(4) =~= line@.skip(i + 4));
            let ghost before = view_char_vecs(fields@);
            fields.push(cur);
            assert(view_char_vecs(fields@) =~= before.push(cur@));
            cur = Vec::new();
            assert(split_fields(line@) =~= view_char_vecs(fields@) + fields_from(
                line@.skip(i + 4),
                cur@,
            ));
            i = i + 4;
        } else if line[i] == '\u{1f}' {
            assert(rest.drop_first() =~= line@.skip(i + 1));
            assert(!starts_with_escaped_sep(rest));
            let ghost before = view_char_vecs(fields@);
            fields.push(cur);
            assert(view_char_vecs(fields@) =~= before.push(cur@));
            cur = Vec::new();
            assert(split_fields(line@) =~= view_char_vecs(fields@) + fields_from(
                line@.skip(i + 1),
                cur@,
            ));
            i = i + 1;
        } else {
            assert(rest.drop_first() =~= line@.skip(i + 1));
            assert(!starts_with_escaped_sep(rest));
            cur.push(line[i]);
            i = i + 1;
        }
    }
    let ghost before = view_char_vecs(fields@);
    fields.push(cur);
    assert(view_char_vecs(fields@) =~= before.push(cur@));
    assert(split_fields(line@) =~= view_char_vecs(fields@));
    fields
}

// ---------------------------------------------------------------------------
// Rows

/// One parsed output line: the pane together with its window and session.
pub struct PaneRow {
    pub session_id: SessionId,
    pub session_name: String,
    pub session_attached: bool,
    pub window_id: WindowId,
    pub window_index: u32,
    pub window_name: String,
    pub window_active: bool,
    pub window_layout: String,
    pub pane_id: PaneId,
    pub pane_index: u32,
    pub pane_active: bool,
    pub pane_command: String,
    pub pane_path: String,
    pub pane_title: String,
    pub window_zoomed: bool,
}

#[verifier::ext_equal]
pub struct RowView {
    pub session_id: Seq<char>,
    pub session_name: Seq<char>,
    pub session_attached: bool,
    pub window_id: Seq<char>,
    pub window_index: u32,
    pub window_name: Seq<char>,
    pub window_active: bool,
    pub window_layout: Seq<char>,
    pub pane_id: Seq<char>,
    pub pane_index: u32,
    pub pane_active: bool,
    pub pane_command: Seq<char>,
    pub pane_path: Seq<char>,
    pub pane_title: Seq<char>,
    pub window_zoomed: bool,
}

impl View for PaneRow {
    type V = RowView;

    open spec fn view(&self) -> RowView {
        RowView {
            session_id: self.session_id@,
            session_name: self.session_name@,
            session_attached: self.session_attached,
            window_id: self.window_id@,
            window_index: self.window_index,
            window_name: self.window_name@,
            window_active: self.window_active,
            window_layout: self.window_layout@,
            pane_id: self.pane_id@,
            pane_index: self.pane_index,
            pane_active: self.pane_active,
            pane_command: self.pane_command@,
            pane_path: self.pane_path@,
            pane_title: self.pane_title@,
            window_zoomed: self.window_zoomed,
        }
    }
}

/// A flag field: `0` is false, any other non-empty text is true.
pub open spec fn flag_value(f: Seq<char>) -> Option<bool> {
    if f == seq!['0'] {
        Some(false)
    } else if f.len() > 0 {
        Some(true)
    } else {
        None
    }
}

/// An index field: a decimal `u32` as `str::parse::<u32>` reads it.
pub open spec fn index_value(f: Seq<char>) -> Option<u32> {
    match parse_unsigned(f, 10, u32::MAX as nat) {
        Some(v) => Some(v as u32),
        None => None,
    }
}

/// The reason given for a field `name` that should hold a number, whose text
/// `{:?}` quotes as `quoted`.
pub open spec fn numeric_reason_text(name: Seq<char>, quoted: Seq<char>) -> Seq<char> {
    "expected numeric "@ + name + ", got "@ + quoted
}

pub open spec fn count_reason(n: nat) -> Seq<char> {
    "expected 15 fields, got "@ + decimal(n)
}

pub open spec fn flag_reason(name: Seq<char>) -> Seq<char> {
    "expected "@ + name + " flag, got empty string"@
}

pub open spec fn index_reason(name: Seq<char>, field: Seq<char>) -> Seq<char> {
    numeric_reason_text(name, debug_quoted(field))
}

/// What one non-empty output line stands for, or why it is malformed. Fields
/// are checked in order, so the first malformed one is the one reported.
pub open spec fn parse_row(line: Seq<char>) -> Result<RowView, Seq<char>> {
    let f = split_fields(line);
    if f.len() != 15 {
        Err(count_reason(f.len()))
    } else if flag_value(f[2]) is None {
        Err(flag_reason("session_attached"@))
    } else if index_value(f[4]) is None {
        Err(index_reason("window_index"@, f[4]))
    } else if flag_value(f[6]) is None {
        Err(flag_reason("window_active"@))
    } else if index_value(f[9]) is None {
        Err(index_reason("pane_index"@, f[9]))
    } else if flag_value(f[10]) is None {
        Err(flag_reason("pane_active"@))
    } else if flag_value(f[14]) is None {
        Err(flag_reason("window_zoomed_flag"@))
    } else {
        Ok(
            RowView {
                session_id: f[0],
                session_name: f[1],
                session_attached: flag_value(f[2]).unwrap(),
                window_id: f[3],
                window_index: index_value(f[4]).unwrap(),
                window_name: f[5],
                window_active: flag_value(f[6]).unwrap(),
                window_layout: f[7],
                pane_id: f[8],
                pane_index: index_value(f[9]).unwrap(),
                pane_active: flag_value(f[10]).unwrap(),
                pane_command: f[11],
                pane_path: f[12],
                pane_title: f[13],
                window_zoomed: flag_value(f[14]).unwrap(),
            },
        )
    }
}

/// Whether a flag field is set: any text but `0`.
pub open spec fn flag_set(f: Seq<char>) -> bool {
    f != seq!['0']
}

/// A line is read field by field in the order of the `-F` template
/// (`snapshot_format_string`): session id, session name, session attached,
/// window id, window index, window name, window active, window layout, pane
/// id, pane index, pane active, pane command, pane path, pane title, window
/// zoomed. A line parses exactly when it has those fifteen fields, its four
/// flags are non-empty and its two indices are decimal `u32`s; each part of
/// the row is then its own field, a flag being set unless it reads `0`.
pub proof fn law_row_fields_in_template_order(line: Seq<char>)
    ensures
        parse_row(line) is Ok <==> {
            let f = split_fields(line);
            &&& f.len() == 15
            &&& f[2].len() > 0
            &&& f[6].len() > 0
            &&& f[10].len() > 0
            &&& f[14].len() > 0
            &&& parse_unsigned(f[4], 10, u32::MAX as nat) is Some
            &&& parse_unsigned(f[9], 10, u32::MAX as nat) is Some
        },
        parse_row(line) matches Ok(r) ==> {
            let f = split_fields(line);
            &&& r.session_id == f[0]
            &&& r.session_name == f[1]
            &&& r.session_attached == flag_set(f[2])
            &&& r.window_id == f[3]
            &&& parse_unsigned(f[4], 10, u32::MAX as nat) == Some(r.window_index as nat)
            &&& r.window_name == f[5]
            &&& r.window_active == flag_set(f[6])
            &&& r.window_layout == f[7]
            &&& r.pane_id == f[8]
            &&& parse_unsigned(f[9], 10, u32::MAX as nat) == Some(r.pane_index as nat)
            &&& r.pane_active == flag_set(f[10])
            &&& r.pane_command == f[11]
            &&& r.pane_path == f[12]
            &&& r.pane_title == f[13]
            &&& r.window_zoomed == flag_set(f[14])
        },
{
    let f = split_fields(line);
    if f.len() == 15 {
        assert(seq!['0'].len() == 1);
    }
}

#[derive(Debug)]
pub struct ParseError {
    pub line_number: usize,
    pub reason: String,
}

#[verifier::ext_equal]
pub struct ParseErrorView {
    pub line_number: nat,
    pub reason: Seq<char>,
}

impl View for ParseError {
    type V = ParseErrorView;

    open spec fn view(&self) -> ParseErrorView {
        ParseErrorView { line_number: self.line_number as nat, reason: self.reason@ }
    }
}

pub open spec fn parse_error_message(e: ParseErrorView) -> Seq<char> {
    "malformed list-panes output at line "@ + decimal(e.line_number) + ": "@ + e.reason
}

impl ParseError {
    /// The error as its display text shows it.
    pub fn message(&self) -> (m: String)
        ensures
            m@ == parse_error_message(self@),
    {
        let mut m = String::from_str("malformed list-panes output at line ");
        push_decimal(&mut m, self.line_number);
        m.append(": ");
        m.append(self.reason.as_str());
        m
    }
}

fn parse_flag(f: &Vec<char>) -> (r: Option<bool>)
    ensures
        r == flag_value(f@),
{
    if f.len() == 1 && f[0] == '0' {
        assert(f@ =~= seq!['0']);
        Some(false)
    } else if f.len() > 0 {
        assert(f@ != seq!['0']) by {
            if f@ == seq!['0'] {
                assert(f@.len() == 1 && f@[0] == '0');
            }
        }
        Some(true)
    } else {
        None
    }
}

fn parse_index(f: &Vec<char>) -> (r: Option<u32>)
    ensures
        r == index_value(f@),
{
    assert(f@.subrange(0, f@.len() as int) =~= f@);
    parse_unsigned_in(f.as_slice(), 0, f.len(), 10, u32::MAX)
}

fn flag_error(line_number: usize, name: &str) -> (e: ParseError)
    ensures
        e@ == (ParseErrorView { line_number: line_number as nat, reason: flag_reason(name@) }),
{
    let mut reason = String::from_str("expected ");
    reason.append(name);
    reason.append(" flag, got empty string");
    ParseError { line_number, reason }
}

fn index_error(line_number: usize, name: &str, field: &Vec<char>) -> (e: ParseError)
    ensures
        e@ == (ParseErrorView {
            line_number: line_number as nat,
            reason: index_reason(name@, field@),
        }),
{
    let text = string_of(field.as_slice(), 0, field.len());
    assert(field@.subrange(0, field@.len() as int) =~= field@);
    let quoted = debug_quote(text.as_str());
    ParseError { line_number, reason: numeric_reason(name, quoted.as_str()) }
}

/// The reason given for a field `name` that should hold a number, from its
/// text as `{:?}` quotes it.
pub fn numeric_reason(name: &str, quoted: &str) -> (r: String)
    ensures
        r@ == numeric_reason_text(name@, quoted@),
{
    let mut reason = String::from_str("expected numeric ");
    reason.append(name);
    reason.append(", got ");
    reason.append(quoted);
    reason
}

fn field_string(fields: &Vec<Vec<char>>, k: usize) -> (s: String)
    requires
        k < fields@.len(),
    ensures
        s@ == fields@[k as int]@,
{
    let f = &fields[k];
    assert(f@.subrange(0, f@.len() as int) =~= f@);
    string_of(f.as_slice(), 0, f.len())
}

/// Parses one non-empty output line (numbered `line_number`, from 1).
pub fn parse_pane_line(line: &Vec<char>, line_number: usize) -> (r: Result<PaneRow, ParseError>)
    ensures
        match (r, parse_row(line@)) {
            (Ok(row), Ok(v)) => row@ == v,
            (Err(e), Err(reason)) => e@ == (ParseErrorView {
                line_number: line_number as nat,
                reason,
            }),
            _ => false,
        },
{
    let fields = split_line_fields(line);
    let ghost f = split_fields(line@);
    assert(forall|k: int| 0 <= k < fields@.len() ==> fields@[k]@ == f[k]);
    if fields.len() != 15 {
        let mut reason = String::from_str("expected 15 fields, got ");
        push_decimal(&mut reason, fields.len());
        return Err(ParseError { line_number, reason });
    }
    let session_attached = match parse_flag(&fields[2]) {
        Some(b) => b,
        None => return Err(flag_error(line_number, "session_attached")),
    };
    let window_index = match parse_index(&fields[4]) {
        Some(v) => v,
        None => return Err(index_error(line_number, "window_index", &fields[4])),
    };
    let window_active = match parse_flag(&fields[6]) {
        Some(b) => b,
        None => return Err(flag_error(line_number, "window_active")),
    };
    let pane_index = match parse_index(&fields[9]) {
        Some(v) => v,
        None => return Err(index_error(line_number, "pane_index", &fields[9])),
    };
    let pane_active = match parse_flag(&fields[10]) {
        Some(b) => b,
        None => return Err(flag_error(line_number, "pane_active")),
    };
    let window_zoomed = match parse_flag(&fields[14]) {
        Some(b) => b,
        None => return Err(flag_error(line_number, "window_zoomed_flag")),
    };
    let s0 = field_string(&fields, 0);
    let s3 = field_string(&fields, 3);
    let s8 = field_string(&fields, 8);
    let row = PaneRow {
        session_id: SessionId::new(s0.as_str()),
        session_name: field_string(&fields, 1),
        session_attached,
        window_id: WindowId::new(s3.as_str()),
        window_index,
        window_name: field_string(&fields, 5),
        window_active,
        window_layout: field_string(&fields, 7),
        pane_id: PaneId::new(s8.as_str()),
        pane_index,
        pane_active,
        pane_command: field_string(&fields, 11),
        pane_path: field_string(&fields, 12),
        pane_title: field_string(&fields, 13),
        window_zoomed,
    };
    Ok(row)
}

// ---------------------------------------------------------------------------
// Grouping

pub open spec fn pane_of(r: RowView) -> PaneView {
    PaneView {
        id: r.pane_id,
        index: r.pane_index,
        active: r.pane_active,
        command: r.pane_command,
        path: r.pane_path,
        title: r.pane_title,
        zoomed: r.window_zoomed,
    }
}

pub open spec fn new_window_of(r: RowView) -> WindowView {
    WindowView {
        id: r.window_id,
        index: r.window_index,
        name: r.window_name,
        active: r.window_active,
        layout: r.window_layout,
        panes: seq![],
    }
}

pub open spec fn new_session_of(r: RowView) -> SessionView {
    SessionView {
        id: r.session_id,
        name: r.session_name,
        attached: r.session_attached,
        windows: seq![],
    }
}

/// `s` with the row's pane appended to the row's window, which is created
/// (after the session's existing windows) on first sight.
pub open spec fn add_to_session(s: SessionView, r: RowView) -> SessionView {
    match window_ids(s.windows).index_of_first(r.window_id) {
        Some(j) => SessionView {
            windows: s.windows.update(
                j,
                WindowView { panes: s.windows[j].panes.push(pane_of(r)), ..s.windows[j] },
            ),
            ..s
        },
        None => SessionView {
            windows: s.windows.push(
                WindowView { panes: seq![pane_of(r)], ..new_window_of(r) },
            ),
            ..s
        },
    }
}

/// The session list after one more row: the row joins the session with its
/// id, which is created (after the existing sessions) on first sight.
pub open spec fn insert_row(ss: Seq<SessionView>, r: RowView) -> Seq<SessionView> {
    match session_ids(ss).index_of_first(r.session_id) {
        Some(i) => ss.update(i, add_to_session(ss[i], r)),
        None => ss.push(add_to_session(new_session_of(r), r)),
    }
}

/// The rows grouped by session, then by window, keeping the order in which
/// tmux first listed each session, each window and each pane.
pub open spec fn group_rows(rows: Seq<RowView>) -> Seq<SessionView>
    decreases rows.len(),
{
    if rows.len() == 0 {
        seq![]
    } else {
        insert_row(group_rows(rows.drop_last()), rows.last())
    }
}

pub open spec fn total_windows(ss: Seq<SessionView>) -> nat
    decreases ss.len(),
{
    if ss.len() == 0 {
        0
    } else {
        total_windows(ss.drop_last()) + ss.last().windows.len()
    }
}

pub open spec fn window_panes(ws: Seq<WindowView>) -> nat
    decreases ws.len(),
{
    if ws.len() == 0 {
        0
    } else {
        window_panes(ws.drop_last()) + ws.last().panes.len()
    }
}

pub open spec fn total_panes(ss: Seq<SessionView>) -> nat
    decreases ss.len(),
{
    if ss.len() == 0 {
        0
    } else {
        total_panes(ss.drop_last()) + window_panes(ss.last().windows)
    }
}

pub proof fn lemma_total_windows_update(ss: Seq<SessionView>, i: int, s: SessionView)
    requires
        0 <= i < ss.len(),
    ensures
        total_windows(ss.update(i, s)) + ss[i].windows.len() == total_windows(ss)
            + s.windows.len(),
    decreases ss.len(),
{
    if i < ss.len() - 1 {
        lemma_total_windows_update(ss.drop_last(), i, s);
        assert(ss.update(i, s).drop_last() =~= ss.drop_last().update(i, s));
    } else {
        assert(ss.update(i, s).drop_last() =~= ss.drop_last());
    }
}

/// Adds one row to the session list (with the running totals).
#[verifier::spinoff_prover]
#[verifier::rlimit(40)]
fn add_row(sessions: &mut Vec<Session>, totals: &mut Totals, row: PaneRow, bound: Ghost<nat>)
    requires
        old(totals).sessions as nat == view_sessions(old(sessions)@).len(),
        old(totals).windows as nat == total_windows(view_sessions(old(sessions)@)),
        old(totals).sessions < bound@,
        old(totals).windows < bound@,
        bound@ <= usize::MAX,
    ensures
        view_sessions(final(sessions)@) == insert_row(view_sessions(old(sessions)@), row@),
        final(totals).sessions as nat == view_sessions(final(sessions)@).len(),
        final(totals).windows as nat == total_windows(view_sessions(final(sessions)@)),
        final(totals).sessions <= old(totals).sessions + 1,
        final(totals).windows <= old(totals).windows + 1,
        final(totals).panes == old(totals).panes,
{
    let ghost r = row@;
    let ghost ss0 = view_sessions(sessions@);
    let PaneRow {
        session_id,
        session_name,
        session_attached,
        window_id,
        window_index,
        window_name,
        window_active,
        window_layout,
        pane_id,
        pane_index,
        pane_active,
        pane_command,
        pane_path,
        pane_title,
        window_zoomed,
    } = row;
    proof {
        lemma_index_of_first(session_ids(ss0), r.session_id);
    }
    let si = match session_position(sessions.as_slice(), &session_id) {
        Some(i) => i,
        None => {
            sessions.push(
                Session { id: session_id, name: session_name, attached: session_attached, windows: Vec::new() },
            );
            totals.sessions = totals.sessions + 1;
            assert(view_sessions(sessions@) =~~= ss0.push(new_session_of(r)));
            assert(new_session_of(r).windows =~= seq![]);
            assert(ss0.push(new_session_of(r)).drop_last() =~= ss0);
            sessions.len() - 1
        },
    };
    let ghost ss1 = view_sessions(sessions@);
    let ghost s1 = ss1[si as int];
    assert(s1 == (match session_ids(ss0).index_of_first(r.session_id) {
        Some(i) => ss0[i],
        None => new_session_of(r),
    }));
    proof {
        lemma_index_of_first(window_ids(s1.windows), r.window_id);
    }
    let wi = match window_position(sessions[si].windows.as_slice(), &window_id) {
        Some(j) => j,
        None => {
            let w = Window {
                id: window_id,
                index: window_index,
                name: window_name,
                active: window_active,
                layout: window_layout,
                panes: Vec::new(),
            };
            let ghost ws_before = sessions@[si as int].windows@;
            sessions[si].windows.push(w);
            totals.windows = totals.windows + 1;
            proof {
                assert(view_windows(sessions@[si as int].windows@) =~~= view_windows(ws_before).push(
                    new_window_of(r),
                ));
                let s_new = SessionView { windows: s1.windows.push(new_window_of(r)), ..s1 };
                assert(view_sessions(sessions@) =~= ss1.update(si as int, s_new));
                lemma_total_windows_update(ss1, si as int, s_new);
            }
            sessions[si].windows.len() - 1
        },
    };
    let ghost ss2 = view_sessions(sessions@);
    let p = Pane {
        id: pane_id,
        index: pane_index,
        active: pane_active,
        command: pane_command,
        path: pane_path,
        title: pane_title,
        zoomed: window_zoomed,
    };
    assert(p@ == pane_of(r));
    let ghost w2 = ss2[si as int].windows[wi as int];
    let ghost ps_before = sessions@[si as int].windows@[wi as int].panes@;
    sessions[si].windows[wi].panes.push(p);
    proof {
        assert(view_panes(sessions@[si as int].windows@[wi as int].panes@) =~= view_panes(
            ps_before,
        ).push(pane_of(r)));
        let w3 = WindowView { panes: w2.panes.push(pane_of(r)), ..w2 };
        let s3 = SessionView {
            windows: ss2[si as int].windows.update(wi as int, w3),
            ..ss2[si as int]
        };
        assert(view_windows(sessions@[si as int].windows@) =~= ss2[si as int].windows.update(
            wi as int,
            w3,
        ));
        assert(view_sessions(sessions@) =~= ss2.update(si as int, s3));
        lemma_total_windows_update(ss2, si as int, s3);
        let target = add_to_session(s1, r);
        let s2 = ss2[si as int];
        match window_ids(s1.windows).index_of_first(r.window_id) {
            Some(j) => {
                assert(ss2 =~= ss1);
                assert(w3 =~~= WindowView { panes: s1.windows[j].panes.push(pane_of(r)), ..s1.windows[j] });
                assert(s3 =~~= target);
            },
            None => {
                assert(s2.windows =~~= s1.windows.push(new_window_of(r)));
                assert(s2.id == s1.id && s2.name == s1.name && s2.attached == s1.attached);
                assert(wi == s1.windows.len());
                assert(w3 =~~= WindowView { panes: seq![pane_of(r)], ..new_window_of(r) });
                assert(s3.windows =~~= s1.windows.push(WindowView { panes: seq![pane_of(r)], ..new_window_of(r) }));
                assert(s3 =~~= target);
            },
        }
        assert(ss2.update(si as int, s3) =~~= ss1.update(si as int, target));
        match session_ids(ss0).index_of_first(r.session_id) {
            Some(i) => {
                assert(ss1.update(si as int, target) =~~= insert_row(ss0, r));
            },
            None => {
                assert(ss1.update(si as int, target) =~~= ss0.push(target));
            },
        }
        assert(view_sessions(sessions@) =~~= insert_row(ss0, r));
    }
}

// ---------------------------------------------------------------------------
// The whole output

/// The rows of the output's lines (blank lines skipped), or the first
/// malformed line with its 1-based number and the reason.
pub open spec fn parse_lines(lines: Seq<Seq<char>>) -> Result<Seq<RowView>, ParseErrorView>
    decreases lines.len(),
{
    if lines.len() == 0 {
        Ok(seq![])
    } else {
        match parse_lines(lines.drop_last()) {
            Err(e) => Err(e),
            Ok(rows) => if lines.last().len() == 0 {
                Ok(rows)
            } else {
                match parse_row(lines.last()) {
                    Ok(r) => Ok(rows.push(r)),
                    Err(reason) => Err(ParseErrorView { line_number: lines.len(), reason }),
                }
            },
        }
    }
}

/// The rows of a whole `list-panes` output.
pub open spec fn parse_output(raw: Seq<char>) -> Result<Seq<RowView>, ParseErrorView> {
    parse_lines(text_lines(raw))
}

/// What `parse_list_panes` gives for `raw`: the grouped rows with their
/// counts, or the first malformed line.
pub open spec fn snapshot_of(rows: Seq<RowView>, client: Option<Seq<char>>, snap: SnapshotView) -> bool {
    &&& snap.sessions == group_rows(rows)
    &&& snap.client_session == client
    &&& snap.totals.sessions == group_rows(rows).len()
    &&& snap.totals.windows == total_windows(group_rows(rows))
    &&& snap.totals.panes == rows.len()
}

/// Parses the raw `list-panes -a` output (one pane per line) into a full
/// `Snapshot`, grouping rows by session then window while preserving tmux's
/// output order. Blank lines are skipped; the first malformed line is an error.
pub fn parse_list_panes(raw: &str, client_session: Option<SessionId>) -> (r: Result<
    Snapshot,
    ParseError,
>)
    ensures
        match (r, parse_output(raw@)) {
            (Ok(snap), Ok(rows)) => snapshot_of(rows, opt_id_view(client_session), snap@),
            (Err(e), Err(ev)) => e@ == ev,
            _ => false,
        },
{
    let cs = chars_of(raw);
    let lines = split_lines(&cs);
    let ghost ls = view_char_vecs(lines@);
    let mut sessions: Vec<Session> = Vec::new();
    let mut totals = Totals { sessions: 0, windows: 0, panes: 0 };
    let ghost mut rows: Seq<RowView> = seq![];
    let mut i: usize = 0;
    assert(ls.take(0) =~= seq![]);
    assert(view_sessions(sessions@) =~= seq![]);
    while i < lines.len()
        invariant
            0 <= i <= lines@.len(),
            lines@.len() <= cs@.len(),
            ls == view_char_vecs(lines@),
            ls == text_lines(raw@),
            parse_lines(ls.take(i as int)) == Ok::<Seq<RowView>, ParseErrorView>(rows),
            view_sessions(sessions@) == group_rows(rows),
            totals.sessions as nat == group_rows(rows).len(),
            totals.windows as nat == total_windows(group_rows(rows)),
            totals.panes as nat == rows.len(),
            totals.sessions <= i,
            totals.windows <= i,
            totals.panes <= i,
        decreases lines.len() - i,
    {
        let line = &lines[i];
        assert(ls.take(i + 1).drop_last() =~= ls.take(i as int));
        assert(ls.take(i + 1).last() == line@);
        if line.len() > 0 {
            match parse_pane_line(line, i + 1) {
                Ok(row) => {
                    let ghost rv = row@;
                    add_row(&mut sessions, &mut totals, row, Ghost((i + 1) as nat));
                    totals.panes = totals.panes + 1;
                    proof {
                        assert(rows.push(rv).drop_last() =~= rows);
                        rows = rows.push(rv);
                    }
                },
                Err(e) => {
                    proof {
                        assert(forall|k: int| 0 <= k <= i ==> #[trigger] ls.take(k + 1).drop_last() =~= ls.take(k));
                        lemma_parse_error_persists(ls, (i + 1) as int);
                    }
                    return Err(e);
                },
            }
        }
        i = i + 1;
    }
    assert(ls.take(lines.len() as int) =~= ls);
    Ok(Snapshot { sessions, client_session, totals })
}

/// Once a prefix of the lines is malformed, so is the whole.
proof fn lemma_parse_error_persists(ls: Seq<Seq<char>>, k: int)
    requires
        0 <= k <= ls.len(),
        parse_lines(ls.take(k)) is Err,
    ensures
        parse_lines(ls) == parse_lines(ls.take(k)),
    decreases ls.len() - k,
{
    if k < ls.len() {
        assert(ls.take(k + 1).drop_last() =~= ls.take(k));
        lemma_parse_error_persists(ls, k + 1);
    } else {
        assert(ls.take(k) =~= ls);
    }
}

// ---------------------------------------------------------------------------
// Blank lines

/// The lines that are not blank, in order.
pub open spec fn nonblank(lines: Seq<Seq<char>>) -> Seq<Seq<char>>
    decreases lines.len(),
{
    if lines.len() == 0 {
        seq![]
    } else if lines.last().len() == 0 {
        nonblank(lines.drop_last())
    } else {
        nonblank(lines.drop_last()).push(lines.last())
    }
}

/// Blank lines change nothing that parses: the lines parse exactly when the
/// same lines without the blank ones do, and then to the same rows.
pub proof fn law_blank_lines_change_no_rows(lines: Seq<Seq<char>>)
    ensures
        parse_lines(lines) is Ok <==> parse_lines(nonblank(lines)) is Ok,
        parse_lines(lines) matches Ok(rows) ==> parse_lines(nonblank(lines)) == Ok::<
            Seq<RowView>,
            ParseErrorView,
        >(rows),
    decreases lines.len(),
{
    if lines.len() > 0 {
        let p = lines.drop_last();
        law_blank_lines_change_no_rows(p);
        if lines.last().len() > 0 {
            let nb = nonblank(p).push(lines.last());
            assert(nb.drop_last() =~= nonblank(p));
            assert(nb.last() == lines.last());
        }
    }
}

/// Where the last, unfinished line of `cur` followed by `s` is empty: at the
/// very start, or right after a newline.
pub open spec fn ends_line(s: Seq<char>, cur: Seq<char>) -> bool {
    if s.len() == 0 {
        cur.len() == 0
    } else {
        s.last() == '\n'
    }
}

proof fn lemma_newline_appended(s: Seq<char>, cur: Seq<char>)
    requires
        !((cur + s).len() > 0 && (cur + s).last() == '\r'),
    ensures
        lines_from(s.push('\n'), cur) == (if ends_line(s, cur) {
            lines_from(s, cur).push(seq![])
        } else {
            lines_from(s, cur)
        }),
    decreases s.len(),
{
    let t = s.push('\n');
    if s.len() == 0 {
        assert(t.drop_first() =~= Seq::<char>::empty());
        assert(t[0] == '\n');
        assert(lines_from(t.drop_first(), seq![]) == Seq::<Seq<char>>::empty());
        assert(seq![strip_cr(cur)] + Seq::<Seq<char>>::empty() =~= seq![strip_cr(cur)]);
        assert(lines_from(t, cur) == seq![strip_cr(cur)]);
        if cur.len() > 0 {
            assert((cur + s) =~= cur);
            assert(strip_cr(cur) == cur);
        } else {
            assert(cur =~= Seq::<char>::empty());
            assert(strip_cr(cur) == cur);
            assert(lines_from(s, cur) == Seq::<Seq<char>>::empty());
            assert(seq![cur] =~= Seq::<Seq<char>>::empty().push(Seq::<char>::empty()));
        }
    } else {
        assert(t.drop_first() =~= s.drop_first().push('\n'));
        assert(t[0] == s[0]);
        let rest = s.drop_first();
        if s[0] == '\n' {
            if rest.len() > 0 {
                assert((seq![] + rest).last() == (cur + s).last());
            }
            assert(seq![] + rest =~= rest);
            lemma_newline_appended(rest, seq![]);
            if rest.len() > 0 {
                assert(rest.last() == s.last());
            }
            let head = seq![strip_cr(cur)];
            assert((head + lines_from(rest, seq![])).push(seq![]) =~= head + lines_from(rest, seq![]).push(
                seq![],
            ));
        } else {
            let c2 = cur.push(s[0]);
            assert(c2 + rest =~= cur + s);
            lemma_newline_appended(rest, c2);
            if rest.len() > 0 {
                assert(rest.last() == s.last());
            }
        }
    }
}

/// A newline added at the end of the output changes nothing, unless the
/// output ends in a carriage return (which the newline then takes off the
/// last line).
pub proof fn law_trailing_newline_changes_nothing(raw: Seq<char>)
    requires
        !(raw.len() > 0 && raw.last() == '\r'),
    ensures
        parse_output(raw.push('\n')) == parse_output(raw),
{
    assert(Seq::<char>::empty() + raw =~= raw);
    lemma_newline_appended(raw, seq![]);
    let ls = text_lines(raw);
    if ends_line(raw, seq![]) {
        assert(ls.push(seq![]).drop_last() =~= ls);
    }
}

// ---------------------------------------------------------------------------
// Laws of the parsed tree

pub proof fn lemma_window_panes_update(ws: Seq<WindowView>, j: int, w: WindowView)
    requires
        0 <= j < ws.len(),
    ensures
        window_panes(ws.update(j, w)) + ws[j].panes.len() == window_panes(ws) + w.panes.len(),
    decreases ws.len(),
{
    if j < ws.len() - 1 {
        lemma_window_panes_update(ws.drop_last(), j, w);
        assert(ws.update(j, w).drop_last() =~= ws.drop_last().update(j, w));
    } else {
        assert(ws.update(j, w).drop_last() =~= ws.drop_last());
    }
}

pub proof fn lemma_total_panes_update(ss: Seq<SessionView>, i: int, s: SessionView)
    requires
        0 <= i < ss.len(),
    ensures
        total_panes(ss.update(i, s)) + window_panes(ss[i].windows) == total_panes(ss)
            + window_panes(s.windows),
    decreases ss.len(),
{
    if i < ss.len() - 1 {
        lemma_total_panes_update(ss.drop_last(), i, s);
        assert(ss.update(i, s).drop_last() =~= ss.drop_last().update(i, s));
    } else {
        assert(ss.update(i, s).drop_last() =~= ss.drop_last());
    }
}

proof fn lemma_add_to_session_panes(s: SessionView, r: RowView)
    ensures
        window_panes(add_to_session(s, r).windows) == window_panes(s.windows) + 1,
        add_to_session(s, r).id == s.id,
{
    lemma_index_of_first(window_ids(s.windows), r.window_id);
    match window_ids(s.windows).index_of_first(r.window_id) {
        Some(j) => {
            let w = WindowView { panes: s.windows[j].panes.push(pane_of(r)), ..s.windows[j] };
            lemma_window_panes_update(s.windows, j, w);
        },
        None => {
            let w = WindowView { panes: seq![pane_of(r)], ..new_window_of(r) };
            assert(s.windows.push(w).drop_last() =~= s.windows);
        },
    }
}

proof fn lemma_insert_row_panes(ss: Seq<SessionView>, r: RowView)
    ensures
        total_panes(insert_row(ss, r)) == total_panes(ss) + 1,
{
    lemma_index_of_first(session_ids(ss), r.session_id);
    match session_ids(ss).index_of_first(r.session_id) {
        Some(i) => {
            lemma_add_to_session_panes(ss[i], r);
            lemma_total_panes_update(ss, i, add_to_session(ss[i], r));
        },
        None => {
            let s = add_to_session(new_session_of(r), r);
            lemma_add_to_session_panes(new_session_of(r), r);
            assert(new_session_of(r).windows =~= seq![]);
            assert(ss.push(s).drop_last() =~= ss);
        },
    }
}

proof fn lemma_group_rows_panes(rows: Seq<RowView>)
    ensures
        total_panes(group_rows(rows)) == rows.len(),
    decreases rows.len(),
{
    if rows.len() > 0 {
        lemma_group_rows_panes(rows.drop_last());
        lemma_insert_row_panes(group_rows(rows.drop_last()), rows.last());
    }
}

/// The header counts of a parsed snapshot are the sizes of its tree: as many
/// sessions as listed, as many windows and panes as they hold.
pub proof fn law_totals_count_the_tree(rows: Seq<RowView>, client: Option<Seq<char>>, snap: SnapshotView)
    requires
        snapshot_of(rows, client, snap),
    ensures
        snap.totals.sessions == snap.sessions.len(),
        snap.totals.windows == total_windows(snap.sessions),
        snap.totals.panes == total_panes(snap.sessions),
{
    lemma_group_rows_panes(rows);
}

/// No two sessions share an id, and no session lists two windows with one id.
pub open spec fn ids_distinct(ss: Seq<SessionView>) -> bool {
    &&& session_ids(ss).no_duplicates()
    &&& forall|i: int| 0 <= i < ss.len() ==> window_ids(#[trigger] ss[i].windows).no_duplicates()
}

proof fn lemma_add_to_session_distinct(s: SessionView, r: RowView)
    requires
        window_ids(s.windows).no_duplicates(),
    ensures
        window_ids(add_to_session(s, r).windows).no_duplicates(),
        add_to_session(s, r).id == s.id,
{
    lemma_index_of_first(window_ids(s.windows), r.window_id);
    let t = add_to_session(s, r);
    match window_ids(s.windows).index_of_first(r.window_id) {
        Some(j) => {
            assert(window_ids(t.windows) =~= window_ids(s.windows));
        },
        None => {
            let w = WindowView { panes: seq![pane_of(r)], ..new_window_of(r) };
            assert(window_ids(t.windows) =~= window_ids(s.windows).push(r.window_id));
            assert(forall|a: int| 0 <= a < window_ids(s.windows).len() ==> window_ids(s.windows)[a] != r.window_id);
        },
    }
}

proof fn lemma_insert_row_distinct(ss: Seq<SessionView>, r: RowView)
    requires
        ids_distinct(ss),
    ensures
        ids_distinct(insert_row(ss, r)),
{
    lemma_index_of_first(session_ids(ss), r.session_id);
    let t = insert_row(ss, r);
    match session_ids(ss).index_of_first(r.session_id) {
        Some(i) => {
            lemma_add_to_session_distinct(ss[i], r);
            assert(session_ids(t) =~= session_ids(ss));
            assert forall|k: int| 0 <= k < t.len() implies window_ids(#[trigger] t[k].windows).no_duplicates() by {
                if k != i {
                    assert(t[k] == ss[k]);
                }
            }
        },
        None => {
            assert(new_session_of(r).windows =~= seq![]);
            assert(window_ids(new_session_of(r).windows) =~= seq![]);
            lemma_add_to_session_distinct(new_session_of(r), r);
            assert(session_ids(t) =~= session_ids(ss).push(r.session_id));
            assert forall|k: int| 0 <= k < t.len() implies window_ids(#[trigger] t[k].windows).no_duplicates() by {
                if k < ss.len() {
                    assert(t[k] == ss[k]);
                }
            }
        },
    }
}

/// Grouping never lists a session twice, nor a window twice within its session.
pub proof fn law_group_ids_distinct(rows: Seq<RowView>)
    ensures
        ids_distinct(group_rows(rows)),
    decreases rows.len(),
{
    if rows.len() == 0 {
        assert(session_ids(group_rows(rows)) =~= seq![]);
    } else {
        law_group_ids_distinct(rows.drop_last());
        lemma_insert_row_distinct(group_rows(rows.drop_last()), rows.last());
    }
}

/// Session `i` of `ss` has `r`'s id, its window `j` has `r`'s window id, and
/// that window's pane `k` is `r`'s pane.
pub open spec fn row_at(ss: Seq<SessionView>, r: RowView, i: int, j: int, k: int) -> bool {
    &&& 0 <= i < ss.len()
    &&& 0 <= j < ss[i].windows.len()
    &&& 0 <= k < ss[i].windows[j].panes.len()
    &&& ss[i].id == r.session_id
    &&& ss[i].windows[j].id == r.window_id
    &&& ss[i].windows[j].panes[k] == pane_of(r)
}

/// `ss` shows row `r`: its pane, in its window, in its session.
pub open spec fn shows_row(ss: Seq<SessionView>, r: RowView) -> bool {
    exists|i: int, j: int, k: int| #[trigger] row_at(ss, r, i, j, k)
}

proof fn lemma_insert_row_keeps(ss: Seq<SessionView>, r: RowView, q: RowView, i: int, j: int, k: int)
    requires
        row_at(ss, q, i, j, k),
    ensures
        shows_row(insert_row(ss, r), q),
{
    lemma_index_of_first(session_ids(ss), r.session_id);
    let t = insert_row(ss, r);
    match session_ids(ss).index_of_first(r.session_id) {
        Some(i0) => {
            if i == i0 {
                let s = ss[i0];
                lemma_index_of_first(window_ids(s.windows), r.window_id);
                match window_ids(s.windows).index_of_first(r.window_id) {
                    Some(j0) => {
                        assert(row_at(t, q, i, j, k));
                    },
                    None => {
                        assert(row_at(t, q, i, j, k));
                    },
                }
            } else {
                assert(row_at(t, q, i, j, k));
            }
        },
        None => {
            assert(row_at(t, q, i, j, k));
        },
    }
}

proof fn lemma_insert_row_shows(ss: Seq<SessionView>, r: RowView)
    ensures
        shows_row(insert_row(ss, r), r),
{
    lemma_index_of_first(session_ids(ss), r.session_id);
    let t = insert_row(ss, r);
    match session_ids(ss).index_of_first(r.session_id) {
        Some(i0) => {
            let s = ss[i0];
            lemma_index_of_first(window_ids(s.windows), r.window_id);
            match window_ids(s.windows).index_of_first(r.window_id) {
                Some(j0) => {
                    let k = s.windows[j0].panes.len() as int;
                    assert(row_at(t, r, i0, j0, k));
                },
                None => {
                    let j = s.windows.len() as int;
                    assert(row_at(t, r, i0, j, 0));
                },
            }
        },
        None => {
            let i = ss.len() as int;
            let s = new_session_of(r);
            assert(window_ids(s.windows) =~= seq![]);
            lemma_index_of_first(window_ids(s.windows), r.window_id);
            assert(row_at(t, r, i, 0, 0));
        },
    }
}

/// Grouping loses no row: every row's pane is in the tree, in the window and
/// the session that the row names.
pub proof fn law_every_row_is_shown(rows: Seq<RowView>)
    ensures
        forall|n: int| 0 <= n < rows.len() ==> shows_row(group_rows(rows), #[trigger] rows[n]),
    decreases rows.len(),
{
    if rows.len() > 0 {
        let prefix = rows.drop_last();
        law_every_row_is_shown(prefix);
        let ss = group_rows(prefix);
        assert forall|n: int| 0 <= n < rows.len() implies shows_row(group_rows(rows), #[trigger] rows[n]) by {
            if n == rows.len() - 1 {
                lemma_insert_row_shows(ss, rows.last());
            } else {
                assert(rows[n] == prefix[n]);
                assert(shows_row(ss, prefix[n]));
                let (i, j, k) = choose|i: int, j: int, k: int| #[trigger] row_at(ss, prefix[n], i, j, k);
                lemma_insert_row_keeps(ss, rows.last(), rows[n], i, j, k);
            }
        }
    }
}

/// Pane `k` of window `j` of session `i` exists in `ss`.
pub open spec fn pane_slot(ss: Seq<SessionView>, i: int, j: int, k: int) -> bool {
    &&& 0 <= i < ss.len()
    &&& 0 <= j < ss[i].windows.len()
    &&& 0 <= k < ss[i].windows[j].panes.len()
}

proof fn lemma_insert_row_origin(ss: Seq<SessionView>, r: RowView, i: int, j: int, k: int)
    requires
        pane_slot(insert_row(ss, r), i, j, k),
    ensures
        row_at(insert_row(ss, r), r, i, j, k) || {
            let t = insert_row(ss, r);
            &&& pane_slot(ss, i, j, k)
            &&& t[i].id == ss[i].id
            &&& t[i].windows[j].id == ss[i].windows[j].id
            &&& t[i].windows[j].panes[k] == ss[i].windows[j].panes[k]
        },
{
    lemma_index_of_first(session_ids(ss), r.session_id);
    match session_ids(ss).index_of_first(r.session_id) {
        Some(i0) => {
            let s = ss[i0];
            lemma_index_of_first(window_ids(s.windows), r.window_id);
        },
        None => {
            let s = new_session_of(r);
            assert(window_ids(s.windows) =~= seq![]);
            lemma_index_of_first(window_ids(s.windows), r.window_id);
        },
    }
}

/// Grouping makes up no pane: every pane in the tree is some row's pane,
/// filed under that row's window and session.
pub proof fn law_every_pane_is_a_row(rows: Seq<RowView>)
    ensures
        forall|i: int, j: int, k: int|
            #[trigger] pane_slot(group_rows(rows), i, j, k) ==> exists|n: int|
                0 <= n < rows.len() && row_at(group_rows(rows), #[trigger] rows[n], i, j, k),
    decreases rows.len(),
{
    if rows.len() == 0 {
        assert(group_rows(rows) =~= seq![]);
    } else {
        let prefix = rows.drop_last();
        law_every_pane_is_a_row(prefix);
        let ss = group_rows(prefix);
        let t = group_rows(rows);
        assert forall|i: int, j: int, k: int| #[trigger] pane_slot(t, i, j, k) implies exists|n: int|
            0 <= n < rows.len() && row_at(t, #[trigger] rows[n], i, j, k) by {
            lemma_insert_row_origin(ss, rows.last(), i, j, k);
            if row_at(t, rows.last(), i, j, k) {
                assert(rows[rows.len() - 1] == rows.last());
            } else {
                assert(pane_slot(ss, i, j, k));
                let n = choose|n: int| 0 <= n < prefix.len() && row_at(ss, #[trigger] prefix[n], i, j, k);
                assert(rows[n] == prefix[n]);
                assert(row_at(t, rows[n], i, j, k));
            }
        }
    }
}

/// The session id of each row, in order.
pub open spec fn row_session_ids(rows: Seq<RowView>) -> Seq<Seq<char>> {
    Seq::new(rows.len(), |n: int| rows[n].session_id)
}

/// `x` first occurs in `ids` before `y` first does.
pub open spec fn first_listed_before(ids: Seq<Seq<char>>, x: Seq<char>, y: Seq<char>) -> bool {
    match (ids.index_of_first(x), ids.index_of_first(y)) {
        (Some(a), Some(b)) => a < b,
        _ => false,
    }
}

proof fn lemma_first_index_kept(ids: Seq<Seq<char>>, x: Seq<char>, id: Seq<char>)
    requires
        ids.contains(id),
    ensures
        ids.push(x).index_of_first(id) == ids.index_of_first(id),
        ids.index_of_first(id) is Some,
{
    lemma_index_of_first(ids, id);
    let i = ids.index_of_first(id)->0;
    lemma_first_index(ids.push(x), id, i);
}

proof fn lemma_first_index_new(ids: Seq<Seq<char>>, id: Seq<char>)
    requires
        !ids.contains(id),
    ensures
        ids.push(id).index_of_first(id) == Some(ids.len() as int),
{
    lemma_first_index(ids.push(id), id, ids.len() as int);
}

proof fn lemma_group_session_ids_listed(rows: Seq<RowView>)
    ensures
        forall|a: int| 0 <= a < group_rows(rows).len() ==> row_session_ids(rows).contains(
            #[trigger] group_rows(rows)[a].id,
        ),
    decreases rows.len(),
{
    if rows.len() > 0 {
        let p = rows.drop_last();
        let r = rows.last();
        lemma_group_session_ids_listed(p);
        let ss = group_rows(p);
        let t = group_rows(rows);
        assert(row_session_ids(rows) =~= row_session_ids(p).push(r.session_id));
        lemma_index_of_first(session_ids(ss), r.session_id);
        assert forall|a: int| 0 <= a < t.len() implies row_session_ids(rows).contains(#[trigger] t[a].id) by {
            match session_ids(ss).index_of_first(r.session_id) {
                Some(i0) => {
                    lemma_add_to_session_panes(ss[i0], r);
                    assert(t[a].id == ss[a].id);
                    let n = choose|n: int| 0 <= n < row_session_ids(p).len() && row_session_ids(p)[n] == ss[a].id;
                    assert(row_session_ids(rows)[n] == ss[a].id);
                },
                None => {
                    if a < ss.len() {
                        let n = choose|n: int| 0 <= n < row_session_ids(p).len() && row_session_ids(p)[n] == ss[a].id;
                        assert(row_session_ids(rows)[n] == ss[a].id);
                    } else {
                        lemma_add_to_session_panes(new_session_of(r), r);
                        assert(row_session_ids(rows)[rows.len() - 1] == r.session_id);
                    }
                },
            }
        }
    }
}

/// Sessions keep tmux's order: one comes before another exactly as its id
/// was first listed before the other's (never sorted).
pub proof fn law_sessions_in_listing_order(rows: Seq<RowView>)
    ensures
        forall|a: int, b: int|
            0 <= a < b < group_rows(rows).len() ==> first_listed_before(
                row_session_ids(rows),
                #[trigger] group_rows(rows)[a].id,
                #[trigger] group_rows(rows)[b].id,
            ),
    decreases rows.len(),
{
    if rows.len() > 0 {
        let p = rows.drop_last();
        let r = rows.last();
        law_sessions_in_listing_order(p);
        lemma_group_session_ids_listed(p);
        law_every_row_is_shown(p);
        let ss = group_rows(p);
        let t = group_rows(rows);
        let ip = row_session_ids(p);
        let ir = row_session_ids(rows);
        assert(ir =~= ip.push(r.session_id));
        lemma_index_of_first(session_ids(ss), r.session_id);
        assert forall|a: int, b: int| 0 <= a < b < t.len() implies first_listed_before(
            ir,
            #[trigger] t[a].id,
            #[trigger] t[b].id,
        ) by {
            assert(ip.contains(ss[a].id));
            lemma_first_index_kept(ip, r.session_id, ss[a].id);
            match session_ids(ss).index_of_first(r.session_id) {
                Some(i0) => {
                    lemma_add_to_session_panes(ss[i0], r);
                    assert(t[a].id == ss[a].id);
                    assert(t[b].id == ss[b].id);
                    assert(ip.contains(ss[b].id));
                    lemma_first_index_kept(ip, r.session_id, ss[b].id);
                    assert(first_listed_before(ip, ss[a].id, ss[b].id));
                },
                None => {
                    assert(t[a] == ss[a]);
                    if b < ss.len() {
                        assert(t[b] == ss[b]);
                        assert(ip.contains(ss[b].id));
                        lemma_first_index_kept(ip, r.session_id, ss[b].id);
                        assert(first_listed_before(ip, ss[a].id, ss[b].id));
                    } else {
                        lemma_add_to_session_panes(new_session_of(r), r);
                        assert(t[b].id == r.session_id);
                        assert(!ip.contains(r.session_id)) by {
                            if ip.contains(r.session_id) {
                                let n = choose|n: int| 0 <= n < ip.len() && ip[n] == r.session_id;
                                assert(shows_row(ss, p[n]));
                                let (i, j, k) = choose|i: int, j: int, k: int| #[trigger] row_at(ss, p[n], i, j, k);
                                assert(session_ids(ss)[i] == r.session_id);
                            }
                        }
                        lemma_first_index_new(ip, r.session_id);
                        lemma_index_of_first(ip, ss[a].id);
                    }
                },
            }
        }
    }
}

/// The window ids of the rows of session `sid`, in order.
pub open spec fn window_ids_listed(rows: Seq<RowView>, sid: Seq<char>) -> Seq<Seq<char>>
    decreases rows.len(),
{
    if rows.len() == 0 {
        seq![]
    } else if rows.last().session_id == sid {
        window_ids_listed(rows.drop_last(), sid).push(rows.last().window_id)
    } else {
        window_ids_listed(rows.drop_last(), sid)
    }
}

proof fn lemma_group_window_ids_listed(rows: Seq<RowView>)
    ensures
        forall|k: int, a: int|
            0 <= k < group_rows(rows).len() && 0 <= a < group_rows(rows)[k].windows.len()
                ==> window_ids_listed(rows, group_rows(rows)[k].id).contains(
                #[trigger] group_rows(rows)[k].windows[a].id,
            ),
    decreases rows.len(),
{
    if rows.len() > 0 {
        let p = rows.drop_last();
        let r = rows.last();
        lemma_group_window_ids_listed(p);
        let ss = group_rows(p);
        let t = group_rows(rows);
        lemma_index_of_first(session_ids(ss), r.session_id);
        assert forall|k: int, a: int| 0 <= k < t.len() && 0 <= a < t[k].windows.len() implies window_ids_listed(
            rows,
            t[k].id,
        ).contains(#[trigger] t[k].windows[a].id) by {
            let sid = t[k].id;
            let lp = window_ids_listed(p, sid);
            let lr = window_ids_listed(rows, sid);
            assert(forall|x: Seq<char>| lp.contains(x) ==> lr.contains(x)) by {
                if r.session_id == sid {
                    assert forall|x: Seq<char>| lp.contains(x) implies lr.contains(x) by {
                        let n = choose|n: int| 0 <= n < lp.len() && lp[n] == x;
                        assert(lr[n] == x);
                    }
                }
            }
            let in_old = 0 <= k < ss.len() && 0 <= a < ss[k].windows.len() && ss[k].id == sid
                && ss[k].windows[a].id == t[k].windows[a].id;
            if !in_old {
                // The window came with this row.
                assert(r.session_id == sid && t[k].windows[a].id == r.window_id) by {
                    match session_ids(ss).index_of_first(r.session_id) {
                        Some(i0) => {
                            lemma_add_to_session_panes(ss[i0], r);
                            lemma_index_of_first(window_ids(ss[i0].windows), r.window_id);
                        },
                        None => {
                            lemma_add_to_session_panes(new_session_of(r), r);
                            assert(window_ids(new_session_of(r).windows) =~= seq![]);
                            lemma_index_of_first(window_ids(new_session_of(r).windows), r.window_id);
                        },
                    }
                }
                assert(lr[lr.len() - 1] == r.window_id);
            }
        }
    }
}

proof fn lemma_listed_row(rows: Seq<RowView>, sid: Seq<char>, w: Seq<char>)
    requires
        window_ids_listed(rows, sid).contains(w),
    ensures
        exists|n: int| 0 <= n < rows.len() && rows[n].session_id == sid && #[trigger] rows[n].window_id == w,
    decreases rows.len(),
{
    let p = rows.drop_last();
    let l = window_ids_listed(p, sid);
    if rows.last().session_id == sid && rows.last().window_id == w {
        assert(rows[rows.len() - 1].window_id == w);
    } else {
        if rows.last().session_id == sid {
            let lr = l.push(rows.last().window_id);
            let m = choose|m: int| 0 <= m < lr.len() && lr[m] == w;
            assert(m < l.len());
            assert(l[m] == w);
        }
        assert(l.contains(w));
        lemma_listed_row(p, sid, w);
        let n = choose|n: int| 0 <= n < p.len() && p[n].session_id == sid && #[trigger] p[n].window_id == w;
        assert(rows[n] == p[n]);
    }
}

/// Windows keep tmux's order within their session: one comes before another
/// exactly as its id was first listed, among that session's rows, before the
/// other's.
pub proof fn law_windows_in_listing_order(rows: Seq<RowView>)
    ensures
        forall|k: int, a: int, b: int|
            0 <= k < group_rows(rows).len() && 0 <= a < b < group_rows(rows)[k].windows.len()
                ==> first_listed_before(
                window_ids_listed(rows, group_rows(rows)[k].id),
                #[trigger] group_rows(rows)[k].windows[a].id,
                #[trigger] group_rows(rows)[k].windows[b].id,
            ),
    decreases rows.len(),
{
    if rows.len() > 0 {
        let p = rows.drop_last();
        let r = rows.last();
        law_windows_in_listing_order(p);
        lemma_group_window_ids_listed(p);
        law_group_ids_distinct(p);
        law_group_ids_distinct(rows);
        let ss = group_rows(p);
        let t = group_rows(rows);
        lemma_index_of_first(session_ids(ss), r.session_id);
        assert forall|k: int, a: int, b: int|
            0 <= k < t.len() && 0 <= a < b < t[k].windows.len() implies first_listed_before(
            window_ids_listed(rows, t[k].id),
            #[trigger] t[k].windows[a].id,
            #[trigger] t[k].windows[b].id,
        ) by {
            let sid = t[k].id;
            let lp = window_ids_listed(p, sid);
            let lr = window_ids_listed(rows, sid);
            match session_ids(ss).index_of_first(r.session_id) {
                Some(i0) => {
                    lemma_add_to_session_panes(ss[i0], r);
                    if k != i0 {
                        assert(t[k] == ss[k]);
                        assert(session_ids(t)[k] != session_ids(t)[i0]);
                        assert(lr == lp);
                    } else {
                        let s0 = ss[i0];
                        assert(lr == lp.push(r.window_id));
                        lemma_index_of_first(window_ids(s0.windows), r.window_id);
                        assert(lp.contains(s0.windows[a].id));
                        lemma_first_index_kept(lp, r.window_id, s0.windows[a].id);
                        match window_ids(s0.windows).index_of_first(r.window_id) {
                            Some(j0) => {
                                assert(t[k].windows[a].id == s0.windows[a].id);
                                assert(t[k].windows[b].id == s0.windows[b].id);
                                assert(lp.contains(s0.windows[b].id));
                                lemma_first_index_kept(lp, r.window_id, s0.windows[b].id);
                                assert(first_listed_before(lp, s0.windows[a].id, s0.windows[b].id));
                            },
                            None => {
                                assert(t[k].windows[a].id == s0.windows[a].id);
                                if b < s0.windows.len() {
                                    assert(t[k].windows[b].id == s0.windows[b].id);
                                    assert(lp.contains(s0.windows[b].id));
                                    lemma_first_index_kept(lp, r.window_id, s0.windows[b].id);
                                    assert(first_listed_before(lp, s0.windows[a].id, s0.windows[b].id));
                                } else {
                                    assert(t[k].windows[b].id == r.window_id);
                                    assert(!lp.contains(r.window_id)) by {
                                        if lp.contains(r.window_id) {
                                            lemma_listed_row(p, sid, r.window_id);
                                            let n = choose|n: int| 0 <= n < p.len() && p[n].session_id == sid
                                                && #[trigger] p[n].window_id == r.window_id;
                                            law_every_row_is_shown(p);
                                            assert(shows_row(ss, p[n]));
                                            let (i, j, m) = choose|i: int, j: int, m: int| #[trigger] row_at(ss, p[n], i, j, m);
                                            assert(session_ids(ss)[i] == session_ids(ss)[i0]);
                                            assert(window_ids(s0.windows)[j] == r.window_id);
                                        }
                                    }
                                    lemma_first_index_new(lp, r.window_id);
                                    lemma_index_of_first(lp, s0.windows[a].id);
                                }
                            },
                        }
                    }
                },
                None => {
                    lemma_add_to_session_panes(new_session_of(r), r);
                    if k < ss.len() {
                        assert(t[k] == ss[k]);
                        assert(session_ids(ss)[k] != r.session_id);
                        assert(lr == lp);
                    } else {
                        let s = new_session_of(r);
                        assert(window_ids(s.windows) =~= seq![]);
                        lemma_index_of_first(window_ids(s.windows), r.window_id);
                        assert(t[k].windows.len() == 1);
                    }
                },
            }
        }
    }
}

/// The panes of the rows of window `wid` of session `sid`, in order.
pub open spec fn panes_listed(rows: Seq<RowView>, sid: Seq<char>, wid: Seq<char>) -> Seq<PaneView>
    decreases rows.len(),
{
    if rows.len() == 0 {
        seq![]
    } else if rows.last().session_id == sid && rows.last().window_id == wid {
        panes_listed(rows.drop_last(), sid, wid).push(pane_of(rows.last()))
    } else {
        panes_listed(rows.drop_last(), sid, wid)
    }
}

proof fn lemma_panes_listed_row(rows: Seq<RowView>, sid: Seq<char>, wid: Seq<char>)
    requires
        panes_listed(rows, sid, wid).len() > 0,
    ensures
        exists|n: int|
            0 <= n < rows.len() && rows[n].session_id == sid && #[trigger] rows[n].window_id == wid,
    decreases rows.len(),
{
    let p = rows.drop_last();
    if rows.last().session_id == sid && rows.last().window_id == wid {
        assert(rows[rows.len() - 1].window_id == wid);
    } else {
        lemma_panes_listed_row(p, sid, wid);
        let n = choose|n: int| 0 <= n < p.len() && p[n].session_id == sid && #[trigger] p[n].window_id == wid;
        assert(rows[n] == p[n]);
    }
}

/// Each window holds exactly the panes of the rows that name it, in the
/// order tmux listed them.
pub proof fn law_panes_in_listing_order(rows: Seq<RowView>)
    ensures
        forall|k: int, j: int|
            0 <= k < group_rows(rows).len() && 0 <= j < group_rows(rows)[k].windows.len()
                ==> (#[trigger] group_rows(rows)[k].windows[j]).panes == panes_listed(
                rows,
                group_rows(rows)[k].id,
                group_rows(rows)[k].windows[j].id,
            ),
    decreases rows.len(),
{
    if rows.len() > 0 {
        let p = rows.drop_last();
        let r = rows.last();
        law_panes_in_listing_order(p);
        law_group_ids_distinct(p);
        law_group_ids_distinct(rows);
        law_every_row_is_shown(p);
        let ss = group_rows(p);
        let t = group_rows(rows);
        lemma_index_of_first(session_ids(ss), r.session_id);
        assert forall|k: int, j: int| 0 <= k < t.len() && 0 <= j < t[k].windows.len() implies (
        #[trigger] t[k].windows[j]).panes == panes_listed(rows, t[k].id, t[k].windows[j].id) by {
            let sid = t[k].id;
            let wid = t[k].windows[j].id;
            let matches_row = r.session_id == sid && r.window_id == wid;
            match session_ids(ss).index_of_first(r.session_id) {
                Some(i0) => {
                    let s0 = ss[i0];
                    lemma_add_to_session_panes(s0, r);
                    lemma_index_of_first(window_ids(s0.windows), r.window_id);
                    assert(window_ids(t[k].windows).no_duplicates());
                    if k != i0 {
                        assert(t[k] == ss[k]);
                        assert(session_ids(t)[k] != session_ids(t)[i0]);
                    } else {
                        match window_ids(s0.windows).index_of_first(r.window_id) {
                            Some(j0) => {
                                if j != j0 {
                                    assert(t[k].windows[j] == s0.windows[j]);
                                    assert(window_ids(t[k].windows)[j] != window_ids(t[k].windows)[j0]);
                                } else {
                                    assert(t[k].windows[j].panes =~= s0.windows[j].panes.push(pane_of(r)));
                                }
                            },
                            None => {
                                if j < s0.windows.len() {
                                    assert(t[k].windows[j] == s0.windows[j]);
                                    assert(window_ids(t[k].windows)[j] != window_ids(t[k].windows)[
                                        s0.windows.len() as int
                                    ]);
                                } else {
                                    assert(wid == r.window_id && sid == r.session_id);
                                    assert(panes_listed(p, sid, wid).len() == 0) by {
                                        if panes_listed(p, sid, wid).len() > 0 {
                                            lemma_panes_listed_row(p, sid, wid);
                                            let n = choose|n: int| 0 <= n < p.len() && p[n].session_id == sid
                                                && #[trigger] p[n].window_id == wid;
                                            assert(shows_row(ss, p[n]));
                                            let (i, jj, m) = choose|i: int, jj: int, m: int|
                                                #[trigger] row_at(ss, p[n], i, jj, m);
                                            assert(session_ids(ss)[i] == session_ids(ss)[i0]);
                                            assert(session_ids(ss).no_duplicates());
                                            assert(i == i0);
                                            assert(window_ids(s0.windows)[jj] == r.window_id);
                                        }
                                    }
                                    assert(t[k].windows[j].panes =~= seq![pane_of(r)]);
                                    assert(panes_listed(p, sid, wid) =~= seq![]);
                                }
                            },
                        }
                    }
                },
                None => {
                    lemma_add_to_session_panes(new_session_of(r), r);
                    if k < ss.len() {
                        assert(t[k] == ss[k]);
                        assert(session_ids(ss)[k] != r.session_id);
                    } else {
                        let s = new_session_of(r);
                        assert(window_ids(s.windows) =~= seq![]);
                        lemma_index_of_first(window_ids(s.windows), r.window_id);
                        assert(panes_listed(p, sid, wid).len() == 0) by {
                            if panes_listed(p, sid, wid).len() > 0 {
                                lemma_panes_listed_row(p, sid, wid);
                                let n = choose|n: int| 0 <= n < p.len() && p[n].session_id == sid
                                    && #[trigger] p[n].window_id == wid;
                                assert(shows_row(ss, p[n]));
                                let (i, jj, m) = choose|i: int, jj: int, m: int| #[trigger] row_at(ss, p[n], i, jj, m);
                                assert(session_ids(ss)[i] == r.session_id);
                            }
                        }
                        assert(t[k].windows[j].panes =~= seq![pane_of(r)]);
                        assert(panes_listed(p, sid, wid) =~= seq![]);
                    }
                },
            }
        }
    }
}

// ---------------------------------------------------------------------------
// The surrounding queries

/// Why a snapshot could not be taken.
#[derive(Debug)]
pub enum SnapshotError {
    /// tmux could not be started; holds the operating system's message.
    Io { message: String },
    /// tmux ran and reported failure.
    TmuxFailed { command: String, stderr: String },
    /// tmux's output was malformed.
    Parse(ParseError),
}

pub open spec fn snapshot_error_message(e: SnapshotError) -> Seq<char> {
    match e {
        SnapshotError::Io { message } => "failed to run tmux: "@ + message@,
        SnapshotError::TmuxFailed { command, stderr } => "`"@ + command@ + "` failed: "@
            + trimmed(stderr@),
        SnapshotError::Parse(p) => parse_error_message(p@),
    }
}

impl SnapshotError {
    /// The error as its display text shows it.
    pub fn message(&self) -> (m: String)
        ensures
            m@ == snapshot_error_message(*self),
    {
        match self {
            SnapshotError::Io { message } => {
                let mut m = String::from_str("failed to run tmux: ");
                m.append(message.as_str());
                m
            },
            SnapshotError::TmuxFailed { command, stderr } => {
                let mut m = String::from_str("`");
                m.append(command.as_str());
                m.append("` failed: ");
                let t = trim(stderr.as_str());
                m.append(t.as_str());
                m
            },
            SnapshotError::Parse(p) => p.message(),
        }
    }
}

/// The command line named when `list-panes` fails.
pub fn list_panes_command() -> (s: String)
    ensures
        s@ == "tmux list-panes -a"@,
{
    String::from_str("tmux list-panes -a")
}

/// The client's session from the output of `display-message -p
/// '#{client_session}'`: none when the query failed or printed nothing but
/// white space, otherwise the trimmed text.
pub fn client_session_from_output(succeeded: bool, stdout: &str) -> (r: Option<SessionId>)
    ensures
        !succeeded ==> r is None,
        succeeded && trimmed(stdout@).len() == 0 ==> r is None,
        succeeded && trimmed(stdout@).len() > 0 ==> (r matches Some(id) && id@ == trimmed(
            stdout@,
        )),
{
    if !succeeded {
        return None;
    }
    let t = trim(stdout);
    if t.as_str().is_empty() {
        None
    } else {
        Some(SessionId::new(t.as_str()))
    }
}

} // verus!
