//! Rewriting relative self-imports into package-qualified imports.
//!
//! An import directive of the shape
//! `#import "<one or more ../><entrypoint-file-name>[: selector]"`
//! is rewritten to `#import "<target><: selector kept verbatim>"`,
//! where the target is the package-qualified specifier. Matching is
//! anchored on the entrypoint's file name alone, preceded by one or
//! more `../` segments, wherever the directive stands in the text; all
//! other text is kept unchanged. This is a plain text transform: it does
//! not parse the document language, and a project that does not follow
//! the relative-self-import convention can be over- or under-matched.

use vstd::prelude::*;
use crate::text::spec_find;

verus! {

/// The whitespace characters accepted between `#import` and the quote.
pub open spec fn is_space(c: char) -> bool {
    c == ' ' || c == '\t' || c == '\n' || c == '\r' || c == '\u{b}' || c == '\u{c}'
}

/// The length of the whitespace run starting at `p`.
pub open spec fn ws_run(s: Seq<char>, p: int) -> int
    decreases s.len() - p when p >= 0
{
    if p < 0 || p >= s.len() {
        0
    } else if is_space(s[p]) {
        1 + ws_run(s, p + 1)
    } else {
        0
    }
}

/// The number of consecutive `../` segments starting at `p`.
pub open spec fn dotdot_run(s: Seq<char>, p: int) -> int
    decreases s.len() - p when p >= 0
{
    if p < 0 || p + 3 > s.len() {
        0
    } else if s[p] == '.' && s[p + 1] == '.' && s[p + 2] == '/' {
        1 + dotdot_run(s, p + 3)
    } else {
        0
    }
}

/// Where the quoted part of a candidate match starts: the position of
/// the opening quote, after `#import` and the whitespace run.
pub open spec fn quote_pos(s: Seq<char>, i: int) -> int {
    i + 7 + ws_run(s, i + 7)
}

/// Where the entrypoint file name would start inside the quotes, after
/// the `../` segments.
pub open spec fn entry_pos(s: Seq<char>, i: int) -> int {
    quote_pos(s, i) + 1 + 3 * dotdot_run(s, quote_pos(s, i) + 1)
}

/// Where the part after the entrypoint file name starts.
pub open spec fn after_entry_pos(s: Seq<char>, entry: Seq<char>, i: int) -> int {
    entry_pos(s, i) + entry.len()
}

/// Whether a rewritable import directive starts at `i`: the word
/// `#import`, whitespace, an opening quote, one or more `../` segments,
/// the entrypoint file name, then either the closing quote or a
/// `: selector` part running to the closing quote.
pub open spec fn match_at(s: Seq<char>, entry: Seq<char>, i: int) -> bool {
    let q = quote_pos(s, i);
    let u = after_entry_pos(s, entry, i);
    &&& 0 <= i
    &&& i + 7 <= s.len()
    &&& s.subrange(i, i + 7) == ("#import")@
    &&& ws_run(s, i + 7) >= 1
    &&& q < s.len()
    &&& s[q] == '"'
    &&& dotdot_run(s, q + 1) >= 1
    &&& u + 1 <= s.len()
    &&& s.subrange(entry_pos(s, i), u) == entry
    &&& (s[u] == '"' || (s[u] == ':' && spec_find(s, '"', u) >= 0))
}

/// The selector part of a match at `i`: empty when the entrypoint file
/// name is followed directly by the closing quote, else the `:`-led text
/// up to the closing quote, kept verbatim.
pub open spec fn selector_of(s: Seq<char>, entry: Seq<char>, i: int) -> Seq<char> {
    let u = after_entry_pos(s, entry, i);
    if s[u] == '"' {
        Seq::empty()
    } else {
        s.subrange(u, spec_find(s, '"', u))
    }
}

/// The position right after a match at `i` (past the closing quote).
pub open spec fn match_end(s: Seq<char>, entry: Seq<char>, i: int) -> int {
    let u = after_entry_pos(s, entry, i);
    if s[u] == '"' {
        u + 1
    } else {
        spec_find(s, '"', u) + 1
    }
}

/// The text a match is replaced with: the directive with the quoted part
/// swapped for the target specifier plus the kept selector.
pub open spec fn replacement(target: Seq<char>, selector: Seq<char>) -> Seq<char> {
    ("#import \"")@ + target + selector + seq!['"']
}

/// The rewritten suffix of `s` from position `i` on: each match is
/// replaced and scanning resumes past it; every other character is kept.
pub open spec fn rewrite_from(s: Seq<char>, entry: Seq<char>, target: Seq<char>, i: int) -> Seq<char>
    decreases s.len() - i when i >= 0
{
    if i < 0 || i >= s.len() {
        Seq::empty()
    } else if match_at(s, entry, i) && i < match_end(s, entry, i) <= s.len() {
        replacement(target, selector_of(s, entry, i))
            + rewrite_from(s, entry, target, match_end(s, entry, i))
    } else {
        seq![s[i]] + rewrite_from(s, entry, target, i + 1)
    }
}

/// The whole rewritten text.
pub open spec fn rewrite_spec(s: Seq<char>, entry: Seq<char>, target: Seq<char>) -> Seq<char> {
    rewrite_from(s, entry, target, 0)
}

/// Whether `c` is accepted as whitespace after `#import`.
pub fn is_space_exec(c: char) -> (r: bool)
    ensures
        r == is_space(c),
{
    c == ' ' || c == '\t' || c == '\n' || c == '\r' || c == '\u{b}' || c == '\u{c}'
}

/// Looks for a rewritable import directive at position `i`. Returns the
/// end of the match and the bounds of its selector part.
#[verifier::loop_isolation(false)]
fn try_match(s: &str, slen: usize, entry: &str, i: usize) -> (r: Option<(usize, usize, usize)>)
    requires
        slen == s@.len(),
        i < slen,
    ensures
        r is Some <==> match_at(s@, entry@, i as int),
        r matches Some((end, ss, se)) ==> {
            &&& end == match_end(s@, entry@, i as int)
            &&& i < end <= slen
            &&& ss <= se <= slen
            &&& s@.subrange(ss as int, se as int) == selector_of(s@, entry@, i as int)
        },
{
    proof {
        reveal_strlit("#import");
    }
    if slen - i < 7 {
        return None;
    }
    if !(s.get_char(i) == '#' && s.get_char(i + 1) == 'i' && s.get_char(i + 2) == 'm'
        && s.get_char(i + 3) == 'p' && s.get_char(i + 4) == 'o' && s.get_char(i + 5) == 'r'
        && s.get_char(i + 6) == 't') {
        proof {
            assert(!match_at(s@, entry@, i as int)) by {
                if s@.subrange(i as int, i + 7) == ("#import")@ {
                    assert(s@[i as int] == s@.subrange(i as int, i + 7)[0]);
                    assert(s@[i + 1] == s@.subrange(i as int, i + 7)[1]);
                    assert(s@[i + 2] == s@.subrange(i as int, i + 7)[2]);
                    assert(s@[i + 3] == s@.subrange(i as int, i + 7)[3]);
                    assert(s@[i + 4] == s@.subrange(i as int, i + 7)[4]);
                    assert(s@[i + 5] == s@.subrange(i as int, i + 7)[5]);
                    assert(s@[i + 6] == s@.subrange(i as int, i + 7)[6]);
                }
            }
        }
        return None;
    }
    proof {
        assert(s@.subrange(i as int, i + 7) =~= ("#import")@);
    }
    let mut k: usize = i + 7;
    while k < slen && is_space_exec(s.get_char(k))
        invariant
            i + 7 <= k <= slen,
            slen == s@.len(),
            ws_run(s@, i + 7) == (k - (i + 7)) + ws_run(s@, k as int),
        decreases slen - k,
    {
        k = k + 1;
    }
    proof {
        assert(ws_run(s@, k as int) == 0);
        assert(quote_pos(s@, i as int) == k as int);
    }
    if k == i + 7 {
        return None;
    }
    if k >= slen || s.get_char(k) != '"' {
        return None;
    }
    let mut p: usize = k + 1;
    let mut runs: usize = 0;
    while p <= slen - 3 && s.get_char(p) == '.' && s.get_char(p + 1) == '.'
        && s.get_char(p + 2) == '/'
        invariant
            k + 1 <= p <= slen,
            slen == s@.len(),
            p == k + 1 + 3 * runs,
            dotdot_run(s@, (k + 1) as int) == runs + dotdot_run(s@, p as int),
        decreases slen - p,
    {
        p = p + 3;
        runs = runs + 1;
    }
    proof {
        assert(dotdot_run(s@, p as int) == 0);
        assert(dotdot_run(s@, (k + 1) as int) == runs as int);
        assert(entry_pos(s@, i as int) == p as int);
    }
    if runs == 0 {
        return None;
    }
    let elen = entry.unicode_len();
    if elen >= slen - p {
        return None;
    }
    let mut j: usize = 0;
    while j < elen
        invariant
            j <= elen,
            elen == entry@.len(),
            slen == s@.len(),
            p + elen + 1 <= slen,
            forall|m: int| 0 <= m < j ==> s@[p + m] == entry@[m],
        decreases elen - j,
    {
        if s.get_char(p + j) != entry.get_char(j) {
            proof {
                let ep = entry_pos(s@, i as int);
                assert(ep == p as int);
                if s@.subrange(ep, ep + entry@.len()) == entry@ {
                    assert(s@.subrange(ep, ep + entry@.len())[j as int] == entry@[j as int]);
                    assert(s@.subrange(ep, ep + entry@.len())[j as int] == s@[p + j]);
                    assert(false);
                }
                assert(!match_at(s@, entry@, i as int));
            }
            return None;
        }
        j = j + 1;
    }
    proof {
        assert(s@.subrange(p as int, p + elen) =~= entry@);
    }
    let u = p + elen;
    let c0 = s.get_char(u);
    if c0 == '"' {
        proof {
            assert(match_at(s@, entry@, i as int));
            assert(s@.subrange(u as int, u as int) =~= selector_of(s@, entry@, i as int));
        }
        Some((u + 1, u, u))
    } else if c0 == ':' {
        match crate::text::find_char_from(s, '"', u) {
            Some(v) => {
                proof {
                    assert(match_at(s@, entry@, i as int));
                }
                Some((v + 1, u, v))
            },
            None => {
                return None;
            },
        }
    } else {
        return None;
    }
}

/// Rewrites every relative self-import of `s` that is anchored on the
/// entrypoint file name `entry` into an import of `target`, keeping any
/// `: selector` part and all other text verbatim.
pub fn rewrite_imports(s: &str, entry: &str, target: &str) -> (r: String)
    ensures
        r@ == rewrite_spec(s@, entry@, target@),
{
    let slen = s.unicode_len();
    let mut out = String::new();
    let mut i: usize = 0;
    while i < slen
        invariant
            i <= slen,
            slen == s@.len(),
            rewrite_spec(s@, entry@, target@) =~= out@ + rewrite_from(s@, entry@, target@, i as int),
        decreases slen - i,
    {
        let ghost before = out@;
        match try_match(s, slen, entry, i) {
            Some((end, ss, se)) => {
                out.append("#import \"");
                out.append(target);
                let sel = s.substring_char(ss, se);
                out.append(sel);
                crate::text::push_char(&mut out, '"');
                proof {
                    assert(out@ =~= before + replacement(target@, selector_of(s@, entry@, i as int)));
                    assert(rewrite_spec(s@, entry@, target@)
                        =~= out@ + rewrite_from(s@, entry@, target@, end as int));
                }
                i = end;
            },
            None => {
                crate::text::push_char(&mut out, s.get_char(i));
                proof {
                    assert(out@ =~= before + seq![s@[i as int]]);
                    assert(rewrite_spec(s@, entry@, target@)
                        =~= out@ + rewrite_from(s@, entry@, target@, i + 1));
                }
                i = i + 1;
            },
        }
    }
    proof {
        assert(rewrite_spec(s@, entry@, target@) =~= out@);
    }
    out
}

/// Composes the package-qualified import target `@<namespace>:<version>`
/// that rewritten self-imports point at.
pub fn import_target(namespace: &str, version: &str) -> (r: String)
    ensures
        r@ == ("@")@ + namespace@ + (":")@ + version@,
{
    let mut out = String::new();
    out.append("@");
    out.append(namespace);
    out.append(":");
    out.append(version);
    proof {
        assert(out@ =~= ("@")@ + namespace@ + (":")@ + version@);
    }
    out
}

/// Text with no match anywhere is left unchanged by the rewrite.
pub proof fn lemma_rewrite_unchanged(s: Seq<char>, entry: Seq<char>, target: Seq<char>)
    requires
        forall|i: int| 0 <= i < s.len() ==> !match_at(s, entry, i),
    ensures
        rewrite_spec(s, entry, target) == s,
{
    lemma_rewrite_unchanged_from(s, entry, target, 0);
    assert(s.subrange(0, s.len() as int) =~= s);
}

proof fn lemma_rewrite_unchanged_from(s: Seq<char>, entry: Seq<char>, target: Seq<char>, i: int)
    requires
        0 <= i <= s.len(),
        forall|k: int| 0 <= k < s.len() ==> !match_at(s, entry, k),
    ensures
        rewrite_from(s, entry, target, i) == s.subrange(i, s.len() as int),
    decreases s.len() - i,
{
    if i == s.len() {
        assert(rewrite_from(s, entry, target, i) =~= s.subrange(i, s.len() as int));
    } else {
        lemma_rewrite_unchanged_from(s, entry, target, i + 1);
        assert(rewrite_from(s, entry, target, i) =~= s.subrange(i, s.len() as int));
    }
}

} // verus!
