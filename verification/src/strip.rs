//! Stripping schema-annotation lines from a manifest.
//!
//! A line runs up to and including its `\n` (the final line may have no
//! terminator). Every line that starts, after leading ASCII blanks,
//! with the schema-annotation comment prefix is deleted together with
//! its terminator; every other byte of the manifest is kept verbatim.

use vstd::prelude::*;
use crate::text::{spec_find, lemma_find_is_first, lemma_find_none, lemma_find_props};

verus! {

/// The ASCII blank characters ignored at the front of a line before the
/// schema-annotation prefix is looked for.
pub open spec fn is_blank(c: char) -> bool {
    c == ' ' || c == '\t' || c == '\u{b}' || c == '\u{c}' || c == '\r'
}

/// `l` without its leading blanks.
pub open spec fn trim_start_blank(l: Seq<char>) -> Seq<char>
    decreases l.len()
{
    if l.len() > 0 && is_blank(l[0]) {
        trim_start_blank(l.subrange(1, l.len() as int))
    } else {
        l
    }
}

/// Whether a line is a schema-annotation line: after leading blanks it
/// starts with `#:schema`. The line may carry its terminator; neither a
/// trailing `\n` nor a `\r` before it changes the test.
pub open spec fn is_schema_line(l: Seq<char>) -> bool {
    crate::text::occurs_at(trim_start_blank(l), "#:schema"@, 0)
}

/// The stripped text from position `i` on: each line, terminator
/// included, is deleted when it is a schema-annotation line and kept
/// verbatim otherwise.
pub open spec fn strip_from(s: Seq<char>, i: int) -> Seq<char>
    decreases s.len() - i when i >= 0 via strip_from_decreases
{
    if i < 0 || i >= s.len() {
        Seq::empty()
    } else {
        let j = spec_find(s, '\n', i);
        let end = if j < 0 { s.len() as int } else { j + 1 };
        let line = s.subrange(i, end);
        if is_schema_line(line) {
            strip_from(s, end)
        } else {
            line + strip_from(s, end)
        }
    }
}

#[via_fn]
proof fn strip_from_decreases(s: Seq<char>, i: int) {
    if 0 <= i < s.len() {
        crate::text::lemma_find_props(s, '\n', i);
    }
}

/// What stripping the schema-annotation lines from `s` yields.
pub open spec fn strip_schema_spec(s: Seq<char>) -> Seq<char> {
    strip_from(s, 0)
}

/// Whether `c` is one of the leading blanks of [`is_blank`].
pub fn is_blank_exec(c: char) -> (r: bool)
    ensures
        r == is_blank(c),
{
    c == ' ' || c == '\t' || c == '\u{b}' || c == '\u{c}' || c == '\r'
}

/// Whether `line` is a schema-annotation line.
pub fn is_schema_line_exec(line: &str) -> (r: bool)
    ensures
        r == is_schema_line(line@),
{
    let llen = line.unicode_len();
    let mut t: usize = 0;
    proof {
        assert(line@.subrange(0, llen as int) =~= line@);
    }
    while t < llen && is_blank_exec(line.get_char(t))
        invariant
            t <= llen,
            llen == line@.len(),
            trim_start_blank(line@) == trim_start_blank(line@.subrange(t as int, llen as int)),
        decreases llen - t,
    {
        proof {
            let sub = line@.subrange(t as int, llen as int);
            assert(sub.subrange(1, sub.len() as int) =~= line@.subrange(t + 1, llen as int));
        }
        t = t + 1;
    }
    proof {
        assert(trim_start_blank(line@) == line@.subrange(t as int, llen as int));
    }
    let tail = line.substring_char(t, llen);
    crate::text::str_starts_with(tail, "#:schema")
}

/// Strips the schema-annotation lines from `s`, keeping every other
/// byte verbatim.
pub fn strip_schema_lines(s: &str) -> (r: String)
    ensures
        r@ == strip_schema_spec(s@),
{
    let slen = s.unicode_len();
    let mut out = String::new();
    let mut i: usize = 0;
    while i < slen
        invariant
            i <= slen,
            slen == s@.len(),
            strip_schema_spec(s@) =~= out@ + strip_from(s@, i as int),
        decreases slen - i,
    {
        let ghost before = out@;
        let end: usize = match crate::text::find_char_from(s, '\n', i) {
            Some(j) => j + 1,
            None => slen,
        };
        let line = s.substring_char(i, end);
        if !is_schema_line_exec(line) {
            out.append(line);
        }
        proof {
            assert(strip_schema_spec(s@) =~= out@ + strip_from(s@, end as int));
        }
        i = end;
    }
    proof {
        assert(strip_schema_spec(s@) =~= out@);
    }
    out
}

/// Stripping a suffix of `s` is stripping that suffix as a text of its
/// own.
proof fn lemma_strip_suffix(s: Seq<char>, i: int)
    requires
        0 <= i <= s.len(),
    ensures
        strip_from(s, i) == strip_from(s.subrange(i, s.len() as int), 0),
    decreases s.len() - i,
{
    let sub = s.subrange(i, s.len() as int);
    if i == s.len() {
        assert(strip_from(s, i) =~= strip_from(sub, 0));
    } else {
        lemma_find_props(s, '\n', i);
        assert(forall|k: int| 0 <= k < sub.len() ==> sub[k] == s[i + k]);
        let j = spec_find(s, '\n', i);
        if j < 0 {
            lemma_find_none(sub, '\n', 0);
            assert(s.subrange(i, s.len() as int) =~= sub.subrange(0, sub.len() as int));
            assert(strip_from(s, s.len() as int) =~= Seq::<char>::empty());
            assert(strip_from(sub, sub.len() as int) =~= Seq::<char>::empty());
            assert(strip_from(s, i) =~= strip_from(sub, 0));
        } else {
            lemma_find_is_first(sub, '\n', 0, j - i);
            assert(s.subrange(i, j + 1) =~= sub.subrange(0, j - i + 1));
            lemma_strip_suffix(s, j + 1);
            lemma_strip_suffix(sub, j - i + 1);
            assert(s.subrange(j + 1, s.len() as int) =~= sub.subrange(j - i + 1, sub.len() as int));
            assert(strip_from(s, i) =~= strip_from(sub, 0));
        }
    }
}

/// A stripped suffix strips to itself: its lines are exactly the kept
/// lines, and none of them is a schema-annotation line.
proof fn lemma_strip_fixed(s: Seq<char>, i: int)
    requires
        0 <= i <= s.len(),
    ensures
        strip_from(strip_from(s, i), 0) == strip_from(s, i),
    decreases s.len() - i,
{
    if i < s.len() {
        lemma_find_props(s, '\n', i);
        let j = spec_find(s, '\n', i);
        let end = if j < 0 { s.len() as int } else { j + 1 };
        let line = s.subrange(i, end);
        let rest = strip_from(s, end);
        lemma_strip_fixed(s, end);
        if !is_schema_line(line) {
            let t = line + rest;
            assert(strip_from(s, i) == t);
            if j >= 0 {
                assert(line.len() >= 1 && line[line.len() - 1] == '\n');
                assert(forall|k: int| 0 <= k < line.len() - 1 ==> t[k] == s[i + k] && t[k] != '\n');
                lemma_find_is_first(t, '\n', 0, line.len() - 1);
                assert(t.subrange(0, line.len() as int) =~= line);
                lemma_strip_suffix(t, line.len() as int);
                assert(t.subrange(line.len() as int, t.len() as int) =~= rest);
                assert(strip_from(t, 0) =~= line + strip_from(rest, 0));
                assert(strip_from(t, 0) =~= t);
            } else {
                assert(rest =~= Seq::<char>::empty());
                assert(t =~= line);
                assert(forall|k: int| 0 <= k < t.len() ==> t[k] == s[i + k] && t[k] != '\n');
                lemma_find_none(t, '\n', 0);
                assert(t.subrange(0, t.len() as int) =~= line);
                assert(strip_from(t, t.len() as int) =~= Seq::<char>::empty());
                assert(strip_from(t, 0) =~= t);
            }
        }
    }
}

/// Law: stripping the schema-annotation lines is idempotent — applying
/// the transform twice yields the same text as applying it once.
pub proof fn lemma_strip_schema_idempotent(s: Seq<char>)
    ensures
        strip_schema_spec(strip_schema_spec(s)) == strip_schema_spec(s),
{
    lemma_strip_fixed(s, 0);
}

} // verus!
