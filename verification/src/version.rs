//! Reading the version that `tmux -V` reports, and the oldest one supported.
use vstd::prelude::*;
use crate::text::{
    chars_of, is_ascii_digit, is_white_space, is_whitespace, parse_unsigned, parse_unsigned_in,
    trim_end,
};

verus! {

/// The run of non-white-space characters that ends `t` (empty when `t` is
/// empty or ends in white space).
pub open spec fn trailing_word(t: Seq<char>) -> Seq<char>
    decreases t.len(),
{
    if t.len() > 0 && !is_white_space(t.last()) {
        trailing_word(t.drop_last()).push(t.last())
    } else {
        seq![]
    }
}

/// The last white-space-separated word of `s`, if it has one.
pub open spec fn last_word(s: Seq<char>) -> Option<Seq<char>> {
    let t = trim_end(s);
    if t.len() == 0 {
        None
    } else {
        Some(trailing_word(t))
    }
}

/// What comes before the first `.` of `w` (all of `w` when it has none).
pub open spec fn before_dot(w: Seq<char>) -> Seq<char> {
    match w.index_of_first('.') {
        Some(i) => w.take(i),
        None => w,
    }
}

/// What comes after the first `.` of `w`, when it has one.
pub open spec fn after_dot(w: Seq<char>) -> Option<Seq<char>> {
    match w.index_of_first('.') {
        Some(i) => Some(w.skip(i + 1)),
        None => None,
    }
}

/// The ASCII digits that `s` starts with.
pub open spec fn leading_digits(s: Seq<char>) -> Seq<char>
    decreases s.len(),
{
    if s.len() > 0 && is_ascii_digit(s[0]) {
        seq![s[0]] + leading_digits(s.drop_first())
    } else {
        seq![]
    }
}

/// The `(major, minor)` version in `tmux -V` output such as `tmux 3.3a`: the
/// last word, split at its first `.`; the major part must be a whole `u32`,
/// the minor part is the digits that the rest starts with (a letter suffix is
/// ignored), which must be a `u32` too.
pub open spec fn tmux_version(raw: Seq<char>) -> Option<(nat, nat)> {
    match last_word(raw) {
        None => None,
        Some(w) => match (parse_unsigned(before_dot(w), 10, u32::MAX as nat), after_dot(w)) {
            (Some(major), Some(rest)) => match parse_unsigned(
                leading_digits(rest),
                10,
                u32::MAX as nat,
            ) {
                Some(minor) => Some((major, minor)),
                None => None,
            },
            _ => None,
        },
    }
}

/// Where the last word of `cs` starts and ends (equal bounds when there is none).
fn last_word_bounds(cs: &Vec<char>) -> (r: (usize, usize))
    ensures
        r.0 <= r.1 <= cs@.len(),
        (r.0 == r.1) == (last_word(cs@) is None),
        r.0 < r.1 ==> last_word(cs@) == Some(cs@.subrange(r.0 as int, r.1 as int)),
{
    let n = cs.len();
    let ghost s = cs@;
    assert(s.take(n as int) =~= s);
    let mut end: usize = n;
    while end > 0 && is_whitespace(cs[end - 1])
        invariant
            cs@ == s,
            n == s.len(),
            end <= n,
            trim_end(s) == trim_end(s.take(end as int)),
        decreases end,
    {
        assert(s.take(end as int).drop_last() =~= s.take(end - 1));
        end = end - 1;
    }
    let ghost t = s.take(end as int);
    assert(trim_end(s) == t);
    if end == 0 {
        return (0, 0);
    }
    let mut start: usize = end;
    assert(t.subrange(end as int, end as int) =~= seq![]);
    assert(t.take(end as int) =~= t);
    while start > 0 && !is_whitespace(cs[start - 1])
        invariant
            cs@ == s,
            n == s.len(),
            start <= end <= n,
            t == s.take(end as int),
            trailing_word(t) == trailing_word(t.take(start as int)) + t.subrange(
                start as int,
                end as int,
            ),
        decreases start,
    {
        let ghost p = t.take(start as int);
        assert(p.drop_last() =~= t.take(start - 1));
        assert(p.last() == cs@[start - 1]);
        assert(trailing_word(p.drop_last()).push(p.last()) + t.subrange(start as int, end as int)
            =~= trailing_word(p.drop_last()) + t.subrange(start - 1, end as int));
        start = start - 1;
    }
    assert(trailing_word(t.take(start as int)) =~= seq![]);
    assert(trailing_word(t) =~= s.subrange(start as int, end as int));
    (start, end)
}

/// The position of the first `.` in `cs[from..to]`, or `to` when there is none.
fn first_dot(cs: &Vec<char>, from: usize, to: usize) -> (d: usize)
    requires
        from <= to <= cs@.len(),
    ensures
        from <= d <= to,
        before_dot(cs@.subrange(from as int, to as int)) == cs@.subrange(from as int, d as int),
        d < to ==> after_dot(cs@.subrange(from as int, to as int)) == Some(
            cs@.subrange(d + 1, to as int),
        ),
        d == to ==> after_dot(cs@.subrange(from as int, to as int)) is None,
{
    let ghost s = cs@;
    let ghost w = s.subrange(from as int, to as int);
    let mut d: usize = from;
    while d < to && cs[d] != '.'
        invariant
            cs@ == s,
            from <= d <= to <= s.len(),
            forall|k: int| from <= k < d ==> s[k] != '.',
        decreases to - d,
    {
        d = d + 1;
    }
    proof {
        w.index_of_first_ensures('.');
    }
    if d < to {
        assert(w[d - from] == '.');
        assert(w.index_of_first('.') == Some(d - from)) by {
            if w.index_of_first('.') != Some(d - from) {
                assert(w[w.index_of_first('.')->0] == '.');
            }
        }
        assert(w.take(d - from) =~= s.subrange(from as int, d as int));
        assert(w.skip(d - from + 1) =~= s.subrange(d + 1, to as int));
    } else {
        assert(w.index_of_first('.') is None) by {
            if w.index_of_first('.') is Some {
                let i = w.index_of_first('.')->0;
                assert(w[i] == '.');
                assert(s[from + i] == '.');
            }
        }
        assert(w =~= s.subrange(from as int, d as int));
    }
    d
}

/// Where the run of ASCII digits that `cs[from..to]` starts with ends.
fn digits_end(cs: &Vec<char>, from: usize, to: usize) -> (e: usize)
    requires
        from <= to <= cs@.len(),
    ensures
        from <= e <= to,
        leading_digits(cs@.subrange(from as int, to as int)) == cs@.subrange(from as int, e as int),
{
    let ghost s = cs@;
    let ghost rest = s.subrange(from as int, to as int);
    let mut e: usize = from;
    assert(s.subrange(from as int, e as int) =~= seq![]);
    assert(s.subrange(e as int, to as int) =~= rest);
    while e < to && '0' <= cs[e] && cs[e] <= '9'
        invariant
            cs@ == s,
            from <= e <= to <= s.len(),
            rest == s.subrange(from as int, to as int),
            leading_digits(rest) == s.subrange(from as int, e as int) + leading_digits(
                s.subrange(e as int, to as int),
            ),
        decreases to - e,
    {
        let ghost q = s.subrange(e as int, to as int);
        assert(q[0] == cs@[e as int]);
        assert(q.drop_first() =~= s.subrange(e + 1, to as int));
        assert(s.subrange(from as int, e as int) + (seq![q[0]] + leading_digits(q.drop_first()))
            =~= s.subrange(from as int, e + 1) + leading_digits(s.subrange(e + 1, to as int)));
        e = e + 1;
    }
    assert(leading_digits(s.subrange(e as int, to as int)) =~= seq![]);
    assert(leading_digits(rest) =~= s.subrange(from as int, e as int));
    e
}

/// Reads the version out of the output of `tmux -V`.
pub fn parse_tmux_version(raw: &str) -> (r: Option<(u32, u32)>)
    ensures
        match tmux_version(raw@) {
            Some((major, minor)) => r == Some((major as u32, minor as u32)),
            None => r is None,
        },
{
    let cs = chars_of(raw);
    let (start, end) = last_word_bounds(&cs);
    if start == end {
        return None;
    }
    let d = first_dot(&cs, start, end);
    let major = match parse_unsigned_in(cs.as_slice(), start, d, 10, 0xffff_ffffu32) {
        Some(v) => v,
        None => return None,
    };
    if d == end {
        return None;
    }
    let e = digits_end(&cs, d + 1, end);
    let minor = match parse_unsigned_in(cs.as_slice(), d + 1, e, 10, 0xffff_ffffu32) {
        Some(v) => v,
        None => return None,
    };
    Some((major, minor))
}

/// Whether `(major, minor)` is at least 3.2, the oldest tmux this works with.
pub fn version_supported(major: u32, minor: u32) -> (r: bool)
    ensures
        r == (major > 3 || (major == 3 && minor >= 2)),
{
    major > 3 || (major == 3 && minor >= 2)
}

} // verus!
