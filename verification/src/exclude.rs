//! The glob/directory exclusion matcher.
//!
//! A relative path is excluded when it matches some glob of the
//! configured pattern set, or when it equals, or lies under, a literal
//! directory-anchor pattern. Glob compilation and matching come from the
//! `globset` crate, through the trusted items below.

use vstd::prelude::*;
use crate::error::PkgError;
use crate::text::trim_trailing_slashes;

verus! {

/// Declares `globset::Glob` to the verifier as an opaque type.
#[verifier::external_type_specification]
#[verifier::external_body]
pub struct ExGlob(globset::Glob);

/// Declares `globset::GlobSet` to the verifier as an opaque type.
#[verifier::external_type_specification]
#[verifier::external_body]
pub struct ExGlobSet(globset::GlobSet);

/// Declares `globset::GlobSetBuilder` to the verifier as an opaque type.
#[verifier::external_type_specification]
#[verifier::external_body]
pub struct ExGlobSetBuilder(globset::GlobSetBuilder);

/// Declares `globset::Error` to the verifier as an opaque type.
#[verifier::external_type_specification]
#[verifier::external_body]
pub struct ExGlobError(globset::Error);

/// Whether `pattern` is valid glob syntax under `globset`'s default
/// options, i.e. whether `globset::Glob::new(pattern)` succeeds.
pub uninterp spec fn glob_ok(pattern: Seq<char>) -> bool;

/// Whether the glob `pattern` matches `path`, under `globset`'s default
/// options. The library only ever asks this of `/`-separated paths.
pub uninterp spec fn glob_match(pattern: Seq<char>, path: Seq<char>) -> bool;

/// The pattern a `globset::Glob` was compiled from.
pub uninterp spec fn glob_pattern(g: globset::Glob) -> Seq<char>;

/// The patterns accumulated in a `globset::GlobSetBuilder`, in the order
/// they were added.
pub uninterp spec fn builder_patterns(b: globset::GlobSetBuilder) -> Seq<Seq<char>>;

/// The patterns a `globset::GlobSet` was built from.
pub uninterp spec fn globset_patterns(s: globset::GlobSet) -> Seq<Seq<char>>;

/// Whether `globset` can compile this pattern list into one matcher:
/// `GlobSetBuilder::build` succeeds or fails as a function of the added
/// patterns alone (it fails only deterministically, e.g. on the regex
/// size limit), and it always succeeds on an empty list.
pub uninterp spec fn globs_buildable(pats: Seq<Seq<char>>) -> bool;

/// Relies on `globset::Glob::new`: parses one glob pattern with the
/// default options, failing exactly on invalid glob syntax.
#[verifier::external_body]
fn glob_new(pattern: &str) -> (r: Result<globset::Glob, globset::Error>)
    ensures
        r is Ok <==> glob_ok(pattern@),
        r matches Ok(g) ==> glob_pattern(g) == pattern@,
{
    globset::Glob::new(pattern)
}

/// Relies on `globset::GlobSetBuilder::new`: starts from no patterns.
#[verifier::external_body]
fn glob_builder_new() -> (r: globset::GlobSetBuilder)
    ensures
        builder_patterns(r) == Seq::<Seq<char>>::empty(),
{
    globset::GlobSetBuilder::new()
}

/// Relies on `globset::GlobSetBuilder::add`: appends one glob to the set
/// under construction.
#[verifier::external_body]
fn glob_builder_add(b: &mut globset::GlobSetBuilder, g: globset::Glob)
    ensures
        builder_patterns(*final(b)) == builder_patterns(*old(b)).push(glob_pattern(g)),
{
    b.add(g);
}

/// Relies on `globset::GlobSetBuilder::build`: compiles the added globs
/// into one matcher over the same patterns; the outcome is a function
/// of the patterns alone, and an empty list always compiles.
#[verifier::external_body]
fn glob_builder_build(b: &globset::GlobSetBuilder) -> (r: Result<globset::GlobSet, globset::Error>)
    ensures
        r matches Ok(s) ==> globset_patterns(s) == builder_patterns(*b),
        r is Ok <==> globs_buildable(builder_patterns(*b)),
        builder_patterns(*b).len() == 0 ==> r is Ok,
{
    b.build()
}

/// Whether some glob of `pats` matches `path`.
pub open spec fn some_glob_matches(pats: Seq<Seq<char>>, path: Seq<char>) -> bool {
    exists|i: int| 0 <= i < pats.len() && glob_match(#[trigger] pats[i], path)
}

/// Relies on `globset::GlobSet::is_match`: true iff some glob of the set
/// matches the given path.
#[verifier::external_body]
fn glob_set_is_match(s: &globset::GlobSet, path: &str) -> (r: bool)
    ensures
        r == (exists|i: int| 0 <= i < globset_patterns(*s).len() && glob_match(#[trigger] globset_patterns(*s)[i], path@)),
{
    s.is_match(path)
}

/// Whether a pattern holds one of the glob metacharacters `*`, `?`, `[`.
pub open spec fn has_glob_meta(p: Seq<char>) -> bool {
    p.contains('*') || p.contains('?') || p.contains('[')
}

/// Whether a pattern acts as a literal directory-exclusion anchor:
/// it has no glob metacharacter, and either names a directory explicitly
/// with a trailing separator or denotes an existing directory under the
/// source root (`is_dir`, settled by the caller).
pub open spec fn is_dir_anchor(p: Seq<char>, is_dir: bool) -> bool {
    !has_glob_meta(p) && (p.len() > 0 && p[p.len() - 1] == '/' || is_dir)
}

/// The directory anchors of a pattern list: each anchoring pattern, with
/// trailing separators trimmed, in order.
pub open spec fn spec_anchors(pats: Seq<Seq<char>>, dirs: Seq<bool>) -> Seq<Seq<char>>
    decreases pats.len()
{
    if pats.len() == 0 {
        Seq::empty()
    } else {
        let rest = spec_anchors(pats.drop_last(), dirs.drop_last());
        if is_dir_anchor(pats.last(), dirs.last()) {
            rest.push(trim_trailing_slashes(pats.last()))
        } else {
            rest
        }
    }
}

/// Whether `path` equals `anchor` or lies under it.
pub open spec fn anchor_matches(anchor: Seq<char>, path: Seq<char>) -> bool {
    path == anchor || (path.len() > anchor.len() && path.subrange(0, anchor.len() as int)
        == anchor && path[anchor.len() as int] == '/')
}

/// Whether `path` is excluded: a glob of `pats` matches it, or it equals
/// or lies under some directory anchor.
pub open spec fn spec_excluded(pats: Seq<Seq<char>>, anchors: Seq<Seq<char>>, path: Seq<char>) -> bool {
    some_glob_matches(pats, path) || exists|i: int|
        0 <= i < anchors.len() && anchor_matches(#[trigger] anchors[i], path)
}

/// Whether `pats[i]` is the first pattern that is not valid glob
/// syntax.
pub open spec fn first_invalid_at(pats: Seq<Seq<char>>, i: int) -> bool {
    0 <= i < pats.len() && !glob_ok(pats[i]) && forall|j: int| 0 <= j < i ==> glob_ok(
        #[trigger] pats[j],
    )
}

/// Whether `s` holds one of the glob metacharacters `*`, `?`, `[`.
pub fn has_glob_metacharacters(s: &str) -> (r: bool)
    ensures
        r == has_glob_meta(s@),
{
    let slen = s.unicode_len();
    let mut i: usize = 0;
    while i < slen
        invariant
            i <= slen,
            slen == s@.len(),
            forall|j: int| 0 <= j < i ==> s@[j] != '*' && s@[j] != '?' && s@[j] != '[',
        decreases slen - i,
    {
        let c = s.get_char(i);
        if c == '*' || c == '?' || c == '[' {
            assert(has_glob_meta(s@));
            return true;
        }
        i = i + 1;
    }
    assert(!s@.contains('*') && !s@.contains('?') && !s@.contains('['));
    false
}

/// A compiled exclusion matcher: the glob set over all patterns, plus the
/// literal directory anchors.
pub struct ExcludeMatcher {
    set: globset::GlobSet,
    anchors: Vec<String>,
}

impl ExcludeMatcher {
    /// The glob patterns the matcher was built from.
    pub closed spec fn glob_pats(self) -> Seq<Seq<char>> {
        globset_patterns(self.set)
    }

    /// The directory anchors of the matcher.
    pub closed spec fn anchor_list(self) -> Seq<Seq<char>> {
        self.anchors@.map_values(|a: String| a@)
    }

    /// Compiles an exclusion matcher from the manifest's pattern list.
    /// `is_dir[i]` says whether `patterns[i]`, joined onto the source
    /// root, denotes an existing directory.
    pub fn new(patterns: &Vec<String>, is_dir: &Vec<bool>) -> (r: Result<ExcludeMatcher, PkgError>)
        requires
            patterns@.len() == is_dir@.len(),
        ensures
            ({
                let pats = patterns@.map_values(|p: String| p@);
                &&& match r {
                    Ok(m) => {
                        &&& forall|i: int| 0 <= i < pats.len() ==> glob_ok(#[trigger] pats[i])
                        &&& globs_buildable(pats)
                        &&& m.glob_pats() == pats
                        &&& m.anchor_list() == spec_anchors(pats, is_dir@)
                    },
                    Err(PkgError::InvalidGlob { pattern }) => exists|i: int|
                        #[trigger] first_invalid_at(pats, i) && pats[i] == pattern@,
                    Err(PkgError::GlobBuildFailed) => {
                        &&& forall|i: int| 0 <= i < pats.len() ==> glob_ok(#[trigger] pats[i])
                        &&& !globs_buildable(pats)
                    },
                    Err(_) => false,
                }
                &&& ((forall|i: int| 0 <= i < pats.len() ==> glob_ok(#[trigger] pats[i]))
                    && globs_buildable(pats) ==> r is Ok)
                &&& (pats.len() == 0 ==> r is Ok)
            }),
    {
        let ghost pats = patterns@.map_values(|p: String| p@);
        let mut builder = glob_builder_new();
        let mut i: usize = 0;
        while i < patterns.len()
            invariant
                i <= patterns@.len(),
                pats == patterns@.map_values(|p: String| p@),
                builder_patterns(builder) =~= pats.subrange(0, i as int),
                forall|j: int| 0 <= j < i ==> glob_ok(#[trigger] pats[j]),
            decreases patterns@.len() - i,
        {
            match glob_new(patterns[i].as_str()) {
                Ok(g) => {
                    glob_builder_add(&mut builder, g);
                    proof {
                        assert(builder_patterns(builder) =~= pats.subrange(0, i + 1));
                    }
                },
                Err(_) => {
                    proof {
                        assert(pats[i as int] == patterns@[i as int]@);
                        assert(first_invalid_at(pats, i as int));
                    }
                    return Err(PkgError::InvalidGlob { pattern: patterns[i].clone() });
                },
            }
            i = i + 1;
        }
        proof {
            assert(builder_patterns(builder) =~= pats);
        }
        let set = match glob_builder_build(&builder) {
            Ok(s) => s,
            Err(_) => {
                return Err(PkgError::GlobBuildFailed);
            },
        };
        let mut anchors: Vec<String> = Vec::new();
        let mut k: usize = 0;
        while k < patterns.len()
            invariant
                k <= patterns@.len(),
                patterns@.len() == is_dir@.len(),
                pats == patterns@.map_values(|p: String| p@),
                anchors@.map_values(|a: String| a@) =~= spec_anchors(
                    pats.subrange(0, k as int),
                    is_dir@.subrange(0, k as int),
                ),
            decreases patterns@.len() - k,
        {
            let p = &patterns[k];
            let plen = p.as_str().unicode_len();
            let trailing = plen > 0 && p.as_str().get_char(plen - 1) == '/';
            if !has_glob_metacharacters(p.as_str()) && (trailing || is_dir[k]) {
                let trimmed = crate::text::trim_trailing_slashes_exec(p.as_str());
                anchors.push(trimmed);
            }
            proof {
                let pk = pats.subrange(0, k + 1);
                let dk = is_dir@.subrange(0, k + 1);
                assert(pk.drop_last() =~= pats.subrange(0, k as int));
                assert(dk.drop_last() =~= is_dir@.subrange(0, k as int));
                assert(pk.last() == pats[k as int]);
                assert(anchors@.map_values(|a: String| a@) =~= spec_anchors(pk, dk));
            }
            k = k + 1;
        }
        proof {
            assert(pats.subrange(0, pats.len() as int) =~= pats);
            assert(is_dir@.subrange(0, is_dir@.len() as int) =~= is_dir@);
        }
        Ok(ExcludeMatcher { set, anchors })
    }

    /// Whether `rel_path` (with `/` separators) is excluded: some glob of
    /// the pattern set matches it, or it equals or lies under some
    /// literal directory-anchor pattern.
    pub fn is_excluded(&self, rel_path: &str) -> (r: bool)
        ensures
            r == spec_excluded(self.glob_pats(), self.anchor_list(), rel_path@),
    {
        if glob_set_is_match(&self.set, rel_path) {
            return true;
        }
        let plen = rel_path.unicode_len();
        let mut i: usize = 0;
        while i < self.anchors.len()
            invariant
                i <= self.anchors@.len(),
                plen == rel_path@.len(),
                !some_glob_matches(self.glob_pats(), rel_path@),
                forall|j: int| 0 <= j < i ==> !anchor_matches(#[trigger] self.anchor_list()[j], rel_path@),
            decreases self.anchors@.len() - i,
        {
            let a = &self.anchors[i];
            let alen = a.as_str().unicode_len();
            proof {
                assert(self.anchor_list()[i as int] == self.anchors@[i as int]@);
            }
            if crate::text::str_eq(rel_path, a.as_str()) {
                assert(anchor_matches(self.anchor_list()[i as int], rel_path@));
                return true;
            }
            if plen > alen && crate::text::str_starts_with(rel_path, a.as_str())
                && rel_path.get_char(alen) == '/' {
                assert(anchor_matches(self.anchor_list()[i as int], rel_path@));
                return true;
            }
            assert(!anchor_matches(self.anchor_list()[i as int], rel_path@));
            i = i + 1;
        }
        false
    }
}

} // verus!
