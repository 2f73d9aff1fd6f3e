//! Verified helpers over `&str` / `String`, viewed as `Seq<char>`.

use vstd::prelude::*;

verus! {

/// The lower-case form of an ASCII upper-case letter; other characters
/// are unchanged.
pub open spec fn lower_char(c: char) -> char {
    if 'A' <= c && c <= 'Z' {
        ((c as u8) + 32) as char
    } else {
        c
    }
}

/// ASCII lower-casing of a character sequence.
pub open spec fn lower_seq(s: Seq<char>) -> Seq<char> {
    s.map_values(|c: char| lower_char(c))
}

/// Whether `a` equals `b` from position `i` on, i.e. `b` occurs in `a` at `i`.
pub open spec fn occurs_at(a: Seq<char>, b: Seq<char>, i: int) -> bool {
    0 <= i && i + b.len() <= a.len() && a.subrange(i, i + b.len()) == b
}

/// The first position at or after `from` holding `c`, or -1 if there is none.
pub open spec fn spec_find(s: Seq<char>, c: char, from: int) -> int
    decreases s.len() - from when from >= 0
{
    if from < 0 || from >= s.len() {
        -1
    } else if s[from] == c {
        from
    } else {
        spec_find(s, c, from + 1)
    }
}

/// Joining the tail of a sequence of segments, from index `from` on,
/// with `sep` between consecutive segments.
pub open spec fn join_char_from(parts: Seq<Seq<char>>, from: int, sep: char) -> Seq<char>
    decreases parts.len() - from when from >= 0
{
    if from < 0 || from >= parts.len() {
        Seq::empty()
    } else if from == parts.len() - 1 {
        parts[from]
    } else {
        parts[from] + seq![sep] + join_char_from(parts, from + 1, sep)
    }
}

/// If `c` first appears at `t` when scanning from `from`, then that is
/// what [`spec_find`] returns.
pub proof fn lemma_find_is_first(s: Seq<char>, c: char, from: int, t: int)
    requires
        0 <= from <= t < s.len(),
        s[t] == c,
        forall|k: int| from <= k < t ==> s[k] != c,
    ensures
        spec_find(s, c, from) == t,
    decreases t - from,
{
    if from < t {
        lemma_find_is_first(s, c, from + 1, t);
    }
}

/// What [`spec_find`] returns: -1 when `c` is absent from `s[from..]`,
/// else the first position of `c` at or after `from`.
pub proof fn lemma_find_props(s: Seq<char>, c: char, from: int)
    requires
        0 <= from <= s.len(),
    ensures
        spec_find(s, c, from) == -1 || (from <= spec_find(s, c, from) < s.len()
            && s[spec_find(s, c, from)] == c),
        spec_find(s, c, from) == -1 ==> forall|k: int| from <= k < s.len() ==> s[k] != c,
        spec_find(s, c, from) >= 0 ==> forall|k: int| from <= k < spec_find(s, c, from) ==> s[k] != c,
    decreases s.len() - from,
{
    if from < s.len() && s[from] != c {
        lemma_find_props(s, c, from + 1);
    }
}

/// If `c` does not appear at or after `from`, [`spec_find`] returns -1.
pub proof fn lemma_find_none(s: Seq<char>, c: char, from: int)
    requires
        0 <= from <= s.len(),
        forall|k: int| from <= k < s.len() ==> s[k] != c,
    ensures
        spec_find(s, c, from) == -1,
    decreases s.len() - from,
{
    if from < s.len() {
        lemma_find_none(s, c, from + 1);
    }
}

/// The last position before `upto` holding `c`, or -1 if there is none.
pub open spec fn spec_rfind(s: Seq<char>, c: char, upto: int) -> int
    decreases upto when upto >= 0
{
    if upto <= 0 || upto > s.len() {
        -1
    } else if s[upto - 1] == c {
        upto - 1
    } else {
        spec_rfind(s, c, upto - 1)
    }
}

/// The last position holding `c`, if any.
pub fn rfind_char(s: &str, c: char) -> (r: Option<usize>)
    ensures
        match r {
            Some(i) => i < s@.len() && spec_rfind(s@, c, s@.len() as int) == i as int,
            None => spec_rfind(s@, c, s@.len() as int) == -1,
        },
{
    let slen = s.unicode_len();
    let mut k: usize = slen;
    while k > 0
        invariant
            k <= slen,
            slen == s@.len(),
            spec_rfind(s@, c, slen as int) == spec_rfind(s@, c, k as int),
        decreases k,
    {
        if s.get_char(k - 1) == c {
            return Some(k - 1);
        }
        k = k - 1;
    }
    None
}

/// Relies on `String::push`: appends one character at the end.
#[verifier::external_body]
pub fn push_char(s: &mut String, c: char)
    ensures
        final(s)@ == old(s)@.push(c),
{
    s.push(c);
}

/// Character-wise equality of two string slices.
pub fn str_eq(a: &str, b: &str) -> (r: bool)
    ensures
        r == (a@ == b@),
{
    let alen = a.unicode_len();
    let blen = b.unicode_len();
    if alen != blen {
        assert(a@ != b@) by {
            assert(a@.len() != b@.len());
        }
        return false;
    }
    let mut i: usize = 0;
    while i < alen
        invariant
            i <= alen,
            alen == a@.len(),
            alen == b@.len(),
            forall|j: int| 0 <= j < i ==> a@[j] == b@[j],
        decreases alen - i,
    {
        if a.get_char(i) != b.get_char(i) {
            return false;
        }
        i = i + 1;
    }
    proof {
        assert(a@ =~= b@);
    }
    true
}

/// Whether `s` begins with `prefix`.
pub fn str_starts_with(s: &str, prefix: &str) -> (r: bool)
    ensures
        r == occurs_at(s@, prefix@, 0),
{
    let slen = s.unicode_len();
    let plen = prefix.unicode_len();
    if plen > slen {
        return false;
    }
    let mut i: usize = 0;
    while i < plen
        invariant
            i <= plen,
            plen <= slen,
            slen == s@.len(),
            plen == prefix@.len(),
            forall|j: int| 0 <= j < i ==> s@[j] == prefix@[j],
        decreases plen - i,
    {
        if s.get_char(i) != prefix.get_char(i) {
            assert(s@.subrange(0, plen as int)[i as int] != prefix@[i as int]);
            return false;
        }
        i = i + 1;
    }
    proof {
        assert(s@.subrange(0, plen as int) =~= prefix@);
    }
    true
}

/// Whether `s` ends with `suffix`.
pub fn str_ends_with(s: &str, suffix: &str) -> (r: bool)
    ensures
        r == occurs_at(s@, suffix@, s@.len() - suffix@.len()),
{
    let slen = s.unicode_len();
    let xlen = suffix.unicode_len();
    if xlen > slen {
        return false;
    }
    let base: usize = slen - xlen;
    let mut i: usize = 0;
    while i < xlen
        invariant
            i <= xlen,
            base == slen - xlen,
            xlen <= slen,
            slen == s@.len(),
            xlen == suffix@.len(),
            forall|j: int| 0 <= j < i ==> s@[base + j] == suffix@[j],
        decreases xlen - i,
    {
        if s.get_char(base + i) != suffix.get_char(i) {
            assert(s@.subrange(base as int, s@.len() as int)[i as int] != suffix@[i as int]);
            return false;
        }
        i = i + 1;
    }
    proof {
        assert(s@.subrange(base as int, s@.len() as int) =~= suffix@);
    }
    true
}

/// The first position at or after `from` holding `c`, if any.
pub fn find_char_from(s: &str, c: char, from: usize) -> (r: Option<usize>)
    requires
        from <= s@.len(),
    ensures
        match r {
            Some(i) => from <= i < s@.len() && spec_find(s@, c, from as int) == i as int,
            None => spec_find(s@, c, from as int) == -1,
        },
{
    let slen = s.unicode_len();
    let mut i: usize = from;
    while i < slen
        invariant
            from <= i <= slen,
            slen == s@.len(),
            spec_find(s@, c, from as int) == spec_find(s@, c, i as int),
            forall|j: int| from <= j < i ==> s@[j] != c,
        decreases slen - i,
    {
        if s.get_char(i) == c {
            return Some(i);
        }
        i = i + 1;
    }
    None
}

/// ASCII lower-casing of one character.
pub fn lower_char_exec(c: char) -> (r: char)
    ensures
        r == lower_char(c),
{
    if 'A' <= c && c <= 'Z' {
        ((c as u8) + 32) as char
    } else {
        c
    }
}

/// ASCII lower-casing of a string.
pub fn to_lower_ascii(s: &str) -> (r: String)
    ensures
        r@ == lower_seq(s@),
{
    let slen = s.unicode_len();
    let mut out = String::new();
    let mut i: usize = 0;
    while i < slen
        invariant
            i <= slen,
            slen == s@.len(),
            out@ == lower_seq(s@).subrange(0, i as int),
        decreases slen - i,
    {
        let c = lower_char_exec(s.get_char(i));
        push_char(&mut out, c);
        proof {
            assert(out@ =~= lower_seq(s@).subrange(0, i + 1));
        }
        i = i + 1;
    }
    proof {
        assert(lower_seq(s@).subrange(0, slen as int) =~= lower_seq(s@));
    }
    out
}

/// Joins `parts[from..]` with `sep` between consecutive elements.
pub fn join_char(parts: &Vec<String>, from: usize, sep: char) -> (r: String)
    requires
        from <= parts@.len(),
    ensures
        r@ == join_char_from(parts@.map_values(|p: String| p@), from as int, sep),
{
    let ghost views = parts@.map_values(|p: String| p@);
    let mut out = String::new();
    let mut i: usize = from;
    while i < parts.len()
        invariant
            from <= i <= parts@.len(),
            views == parts@.map_values(|p: String| p@),
            join_char_from(views, from as int, sep) =~= out@ + join_char_from(views, i as int, sep),
        decreases parts@.len() - i,
    {
        let ghost before = out@;
        out.append(parts[i].as_str());
        if i + 1 < parts.len() {
            push_char(&mut out, sep);
            proof {
                assert(out@ =~= before + views[i as int] + seq![sep]);
                assert(join_char_from(views, from as int, sep)
                    =~= out@ + join_char_from(views, i + 1, sep));
            }
        } else {
            proof {
                assert(join_char_from(views, from as int, sep)
                    =~= out@ + join_char_from(views, i + 1, sep));
            }
        }
        i = i + 1;
    }
    proof {
        assert(join_char_from(views, from as int, sep) =~= out@);
    }
    out
}

/// `s` with every trailing `/` removed.
pub open spec fn trim_trailing_slashes(s: Seq<char>) -> Seq<char>
    decreases s.len()
{
    if s.len() > 0 && s[s.len() - 1] == '/' {
        trim_trailing_slashes(s.drop_last())
    } else {
        s
    }
}

/// The longest suffix of `s` that holds no `/`.
pub open spec fn suffix_after_slash(s: Seq<char>) -> Seq<char>
    decreases s.len()
{
    if s.len() == 0 {
        Seq::empty()
    } else if s[s.len() - 1] == '/' {
        Seq::empty()
    } else {
        suffix_after_slash(s.drop_last()).push(s[s.len() - 1])
    }
}

/// The final path component of `s`: the part after the last `/`, with
/// trailing separators ignored.
pub open spec fn base_name(s: Seq<char>) -> Seq<char> {
    suffix_after_slash(trim_trailing_slashes(s))
}

/// Whether a final path component can serve as a directory name.
pub open spec fn usable_base_name(b: Seq<char>) -> bool {
    b.len() > 0 && b != seq!['.'] && b != seq!['.', '.']
}

/// The final component of `path`, as the exec counterpart of [`base_name`].
pub fn base_name_of(path: &str) -> (r: String)
    ensures
        r@ == base_name(path@),
{
    let slen = path.unicode_len();
    let mut e: usize = slen;
    proof {
        assert(path@.subrange(0, slen as int) =~= path@);
    }
    while e > 0 && path.get_char(e - 1) == '/'
        invariant
            e <= slen,
            slen == path@.len(),
            trim_trailing_slashes(path@) == trim_trailing_slashes(path@.subrange(0, e as int)),
        decreases e,
    {
        proof {
            assert(path@.subrange(0, e as int).drop_last() =~= path@.subrange(0, e - 1));
        }
        e = e - 1;
    }
    let ghost t = path@.subrange(0, e as int);
    proof {
        assert(trim_trailing_slashes(path@) == t);
    }
    let mut k: usize = e;
    proof {
        assert(t.subrange(0, e as int) =~= t);
        assert(t.subrange(e as int, e as int) =~= Seq::<char>::empty());
        assert(suffix_after_slash(t) =~= suffix_after_slash(t.subrange(0, e as int))
            + t.subrange(e as int, e as int));
    }
    while k > 0 && path.get_char(k - 1) != '/'
        invariant
            k <= e <= slen,
            slen == path@.len(),
            t == path@.subrange(0, e as int),
            suffix_after_slash(t) =~= suffix_after_slash(t.subrange(0, k as int))
                + t.subrange(k as int, e as int),
        decreases k,
    {
        proof {
            let tk = t.subrange(0, k as int);
            assert(tk.drop_last() =~= t.subrange(0, k - 1));
            assert(tk[k - 1] == path@[k - 1]);
            assert(suffix_after_slash(tk)
                =~= suffix_after_slash(t.subrange(0, k - 1)).push(t[k - 1]));
            assert(suffix_after_slash(t.subrange(0, k - 1)) + t.subrange(k - 1, e as int)
                =~= suffix_after_slash(t.subrange(0, k as int)) + t.subrange(k as int, e as int));
        }
        k = k - 1;
    }
    proof {
        if k == 0 {
            assert(t.subrange(0, 0) =~= Seq::<char>::empty());
            assert(suffix_after_slash(Seq::<char>::empty()) =~= Seq::<char>::empty());
            assert(suffix_after_slash(t) =~= t.subrange(0, e as int));
        } else {
            assert(t.subrange(0, k as int)[k - 1] == '/');
            assert(suffix_after_slash(t.subrange(0, k as int)) =~= Seq::<char>::empty());
            assert(suffix_after_slash(t) =~= t.subrange(k as int, e as int));
        }
    }
    let base = path.substring_char(k, e);
    base.to_owned()
}

/// `s` with every trailing `/` removed, as the exec counterpart of
/// [`trim_trailing_slashes`].
pub fn trim_trailing_slashes_exec(s: &str) -> (r: String)
    ensures
        r@ == trim_trailing_slashes(s@),
{
    let slen = s.unicode_len();
    let mut e: usize = slen;
    proof {
        assert(s@.subrange(0, slen as int) =~= s@);
    }
    while e > 0 && s.get_char(e - 1) == '/'
        invariant
            e <= slen,
            slen == s@.len(),
            trim_trailing_slashes(s@) == trim_trailing_slashes(s@.subrange(0, e as int)),
        decreases e,
    {
        proof {
            assert(s@.subrange(0, e as int).drop_last() =~= s@.subrange(0, e - 1));
        }
        e = e - 1;
    }
    let t = s.substring_char(0, e);
    t.to_owned()
}

} // verus!
