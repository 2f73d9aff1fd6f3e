//! The tree materializer: turning a package's source entries into the
//! entries written at the destination.
//!
//! Each entry carries its path relative to the source root, with `/`
//! separators. An entry is skipped when it, or a directory above it, is
//! excluded; a kept manifest file has its schema-annotation lines
//! stripped; a kept document-source file has its relative self-imports
//! rewritten; every other kept file is reproduced byte for byte. The
//! caller does the actual walking and writing and hands the entries
//! through this transform.

use vstd::prelude::*;
use crate::error::PkgError;
use crate::exclude::{ExcludeMatcher, first_invalid_at, globs_buildable, spec_anchors, spec_excluded, glob_ok};
use crate::text::{base_name, spec_rfind, trim_trailing_slashes};

verus! {

/// One entry of a source or destination tree.
#[derive(Debug, Clone)]
pub struct TreeEntry {
    pub rel_path: String,
    pub is_dir: bool,
    pub content: String,
}

/// The mathematical shape of a tree entry.
pub struct EntryModel {
    pub rel_path: Seq<char>,
    pub is_dir: bool,
    pub content: Seq<char>,
}

/// The model of one executable entry.
pub open spec fn entry_model(e: TreeEntry) -> EntryModel {
    EntryModel { rel_path: e.rel_path@, is_dir: e.is_dir, content: e.content@ }
}

/// The models of a list of entries.
pub open spec fn entries_model(v: Seq<TreeEntry>) -> Seq<EntryModel> {
    v.map_values(|e: TreeEntry| entry_model(e))
}

/// Whether a path names the package manifest: its file name is
/// `typst.toml`, at any depth.
pub open spec fn is_manifest_path(p: Seq<char>) -> bool {
    base_name(p) == ("typst.toml")@
}

/// Whether a path names a document-source file: its file name has the
/// extension `typ` (a leading dot alone does not make an extension).
pub open spec fn has_typ_ext(p: Seq<char>) -> bool {
    let b = base_name(p);
    let k = spec_rfind(b, '.', b.len() as int);
    k > 0 && b.subrange(k + 1, b.len() as int) == ("typ")@
}

/// What a kept file's content becomes at the destination.
pub open spec fn transform_content(
    p: Seq<char>,
    content: Seq<char>,
    entry: Seq<char>,
    target: Seq<char>,
) -> Seq<char> {
    if is_manifest_path(p) {
        crate::strip::strip_schema_spec(content)
    } else if has_typ_ext(p) {
        crate::rewrite::rewrite_spec(content, entry, target)
    } else {
        content
    }
}

/// Whether `p` or a directory above it is excluded: some `/`-boundary
/// prefix of `p` (or `p` itself) matches the exclusion rules.
pub open spec fn tree_excluded(pats: Seq<Seq<char>>, anchors: Seq<Seq<char>>, p: Seq<char>) -> bool {
    exists|e: int|
        0 <= e <= p.len() && (e == p.len() || p[e] == '/') && spec_excluded(
            pats,
            anchors,
            #[trigger] p.subrange(0, e),
        )
}

/// Whether some directory entry of the tree stands at the pattern's
/// path (with trailing separators trimmed).
pub open spec fn pattern_denotes_dir(es: Seq<EntryModel>, p: Seq<char>) -> bool {
    exists|k: int| 0 <= k < es.len() && (#[trigger] es[k]).is_dir
        && es[k].rel_path == trim_trailing_slashes(p)
}

/// For each pattern, whether it denotes a directory of the tree.
pub open spec fn dir_flags(es: Seq<EntryModel>, pats: Seq<Seq<char>>) -> Seq<bool> {
    Seq::new(pats.len(), |i: int| pattern_denotes_dir(es, pats[i]))
}

/// The destination entries: each source entry that is not excluded
/// (itself or through a directory above it), in order, with file
/// content transformed by [`transform_content`].
pub open spec fn materialize_spec(
    es: Seq<EntryModel>,
    pats: Seq<Seq<char>>,
    anchors: Seq<Seq<char>>,
    entry: Seq<char>,
    target: Seq<char>,
) -> Seq<EntryModel>
    decreases es.len()
{
    if es.len() == 0 {
        Seq::empty()
    } else {
        let rest = materialize_spec(es.drop_last(), pats, anchors, entry, target);
        let l = es.last();
        if tree_excluded(pats, anchors, l.rel_path) {
            rest
        } else if l.is_dir {
            rest.push(l)
        } else {
            rest.push(EntryModel {
                rel_path: l.rel_path,
                is_dir: false,
                content: transform_content(l.rel_path, l.content, entry, target),
            })
        }
    }
}

/// Whether the tree holds a directory at the (trimmed) pattern path.
fn pattern_denotes_dir_exec(entries: &Vec<TreeEntry>, pattern: &str) -> (r: bool)
    ensures
        r == pattern_denotes_dir(entries_model(entries@), pattern@),
{
    let ghost es = entries_model(entries@);
    let trimmed = crate::text::trim_trailing_slashes_exec(pattern);
    let mut k: usize = 0;
    while k < entries.len()
        invariant
            k <= entries@.len(),
            es == entries_model(entries@),
            trimmed@ == trim_trailing_slashes(pattern@),
            forall|m: int| 0 <= m < k ==> !((#[trigger] es[m]).is_dir
                && es[m].rel_path == trim_trailing_slashes(pattern@)),
        decreases entries@.len() - k,
    {
        proof {
            assert(es[k as int] == entry_model(entries@[k as int]));
        }
        if entries[k].is_dir && crate::text::str_eq(entries[k].rel_path.as_str(), trimmed.as_str()) {
            return true;
        }
        k = k + 1;
    }
    false
}

/// Whether `path` or a directory above it is excluded by the matcher.
#[verifier::loop_isolation(false)]
pub fn is_excluded_with_ancestors(m: &ExcludeMatcher, path: &str) -> (r: bool)
    ensures
        r == tree_excluded(m.glob_pats(), m.anchor_list(), path@),
{
    let plen = path.unicode_len();
    let mut e: usize = 0;
    while e < plen
        invariant
            e <= plen,
            forall|f: int| 0 <= f < e && path@[f] == '/'
                ==> !spec_excluded(m.glob_pats(), m.anchor_list(), #[trigger] path@.subrange(0, f)),
        decreases plen - e,
    {
        if path.get_char(e) == '/' {
            let prefix = path.substring_char(0, e);
            if m.is_excluded(prefix) {
                proof {
                    assert(tree_excluded(m.glob_pats(), m.anchor_list(), path@));
                }
                return true;
            }
        }
        e = e + 1;
    }
    proof {
        assert(path@.subrange(0, plen as int) =~= path@);
    }
    if m.is_excluded(path) {
        proof {
            assert(spec_excluded(m.glob_pats(), m.anchor_list(), path@.subrange(0, plen as int)));
            assert(tree_excluded(m.glob_pats(), m.anchor_list(), path@));
        }
        return true;
    }
    false
}

/// Materializes the source entries: compiles the exclusion rules from
/// the pattern list (a pattern denotes a directory when a directory
/// entry of the tree stands at its path), drops every excluded entry
/// and everything below an excluded directory, and transforms the kept
/// files' contents.
pub fn materialize_entries(
    entries: &Vec<TreeEntry>,
    exclude_patterns: &Vec<String>,
    entrypoint_name: &str,
    import_target: &str,
) -> (r: Result<Vec<TreeEntry>, PkgError>)
    ensures
        ({
            let es = entries_model(entries@);
            let pats = exclude_patterns@.map_values(|p: String| p@);
            let anchors = spec_anchors(pats, dir_flags(es, pats));
            &&& match r {
                Ok(out) => {
                    &&& forall|i: int| 0 <= i < pats.len() ==> glob_ok(#[trigger] pats[i])
                    &&& globs_buildable(pats)
                    &&& entries_model(out@) == materialize_spec(
                        es,
                        pats,
                        anchors,
                        entrypoint_name@,
                        import_target@,
                    )
                },
                Err(PkgError::InvalidGlob { pattern }) => exists|i: int|
                    #[trigger] first_invalid_at(pats, i) && pats[i] == pattern@,
                Err(PkgError::GlobBuildFailed) => {
                    &&& forall|i: int| 0 <= i < pats.len() ==> glob_ok(#[trigger] pats[i])
                    &&& !globs_buildable(pats)
                },
                Err(_) => false,
            }
            &&& ((forall|i: int| 0 <= i < pats.len() ==> glob_ok(#[trigger] pats[i]))
                && globs_buildable(pats) ==> r is Ok)
            &&& (pats.len() == 0 ==> r is Ok)
        }),
{
    let ghost es = entries_model(entries@);
    let ghost pats = exclude_patterns@.map_values(|p: String| p@);
    let mut flags: Vec<bool> = Vec::new();
    let mut pi: usize = 0;
    while pi < exclude_patterns.len()
        invariant
            pi <= exclude_patterns@.len(),
            es == entries_model(entries@),
            pats == exclude_patterns@.map_values(|p: String| p@),
            flags@.len() == pi,
            forall|m: int| 0 <= m < pi ==> flags@[m] == pattern_denotes_dir(es, #[trigger] pats[m]),
        decreases exclude_patterns@.len() - pi,
    {
        let f = pattern_denotes_dir_exec(entries, exclude_patterns[pi].as_str());
        flags.push(f);
        pi = pi + 1;
    }
    proof {
        assert(flags@ =~= dir_flags(es, pats));
    }
    let matcher = match ExcludeMatcher::new(exclude_patterns, &flags) {
        Ok(m) => m,
        Err(err) => {
            return Err(err);
        },
    };
    let mut out: Vec<TreeEntry> = Vec::new();
    let mut i: usize = 0;
    while i < entries.len()
        invariant
            i <= entries@.len(),
            es == entries_model(entries@),
            pats == exclude_patterns@.map_values(|p: String| p@),
            matcher.glob_pats() == pats,
            matcher.anchor_list() == spec_anchors(pats, dir_flags(es, pats)),
            entries_model(out@) =~= materialize_spec(
                es.subrange(0, i as int),
                pats,
                matcher.anchor_list(),
                entrypoint_name@,
                import_target@,
            ),
        decreases entries@.len() - i,
    {
        let e = &entries[i];
        let ghost out_old = out@;
        proof {
            assert(es[i as int] == entry_model(entries@[i as int]));
            assert(es.subrange(0, i + 1).drop_last() =~= es.subrange(0, i as int));
            assert(es.subrange(0, i + 1).last() == es[i as int]);
        }
        if !is_excluded_with_ancestors(&matcher, e.rel_path.as_str()) {
            if e.is_dir {
                out.push(TreeEntry {
                    rel_path: e.rel_path.clone(),
                    is_dir: true,
                    content: e.content.clone(),
                });
                proof {
                    assert(entries_model(out@) =~= entries_model(out_old).push(
                        entry_model(out@.last()),
                    ));
                    assert(entry_model(out@.last()) == es[i as int]);
                }
            } else {
                let base = crate::text::base_name_of(e.rel_path.as_str());
                let blen = base.as_str().unicode_len();
                let content: String = if crate::text::str_eq(base.as_str(), "typst.toml") {
                    crate::strip::strip_schema_lines(e.content.as_str())
                } else {
                    let is_typ = match crate::text::rfind_char(base.as_str(), '.') {
                        Some(k) => {
                            if k > 0 {
                                let ext = base.as_str().substring_char(k + 1, blen);
                                crate::text::str_eq(ext, "typ")
                            } else {
                                false
                            }
                        },
                        None => false,
                    };
                    if is_typ {
                        crate::rewrite::rewrite_imports(
                            e.content.as_str(),
                            entrypoint_name,
                            import_target,
                        )
                    } else {
                        e.content.clone()
                    }
                };
                out.push(TreeEntry { rel_path: e.rel_path.clone(), is_dir: false, content });
                proof {
                    assert(entries_model(out@) =~= entries_model(out_old).push(
                        entry_model(out@.last()),
                    ));
                    assert(entry_model(out@.last()) == (EntryModel {
                        rel_path: es[i as int].rel_path,
                        is_dir: false,
                        content: transform_content(
                            es[i as int].rel_path,
                            es[i as int].content,
                            entrypoint_name@,
                            import_target@,
                        ),
                    }));
                }
            }
        }
        proof {
            assert(entries_model(out@) =~= materialize_spec(
                es.subrange(0, i + 1),
                pats,
                matcher.anchor_list(),
                entrypoint_name@,
                import_target@,
            ));
        }
        i = i + 1;
    }
    proof {
        assert(es.subrange(0, es.len() as int) =~= es);
    }
    Ok(out)
}

/// Law: with no exclusion patterns, materialization reproduces every
/// source entry at its mirrored path, in order; a manifest's content is
/// its schema-stripped text, a document source's content its rewritten
/// text, and every other file is reproduced unchanged.
pub proof fn lemma_materialize_empty_excludes(
    es: Seq<EntryModel>,
    entry: Seq<char>,
    target: Seq<char>,
)
    ensures
        ({
            let out = materialize_spec(es, Seq::empty(), Seq::empty(), entry, target);
            &&& out.len() == es.len()
            &&& forall|i: int| 0 <= i < es.len() ==> (#[trigger] out[i]).rel_path == es[i].rel_path
                && out[i].is_dir == es[i].is_dir
            &&& forall|i: int| 0 <= i < es.len() && (#[trigger] es[i]).is_dir
                ==> out[i].content == es[i].content
            &&& forall|i: int| 0 <= i < es.len() && !(#[trigger] es[i]).is_dir
                ==> out[i].content == transform_content(es[i].rel_path, es[i].content, entry, target)
            &&& forall|i: int| 0 <= i < es.len() && !(#[trigger] es[i]).is_dir
                && !is_manifest_path(es[i].rel_path) && !has_typ_ext(es[i].rel_path)
                ==> out[i].content == es[i].content
        }),
    decreases es.len(),
{
    let out = materialize_spec(es, Seq::empty(), Seq::empty(), entry, target);
    if es.len() > 0 {
        lemma_materialize_empty_excludes(es.drop_last(), entry, target);
        let rest = materialize_spec(es.drop_last(), Seq::empty(), Seq::empty(), entry, target);
        assert(!tree_excluded(Seq::empty(), Seq::empty(), es.last().rel_path));
        assert(out.len() == es.len());
        assert forall|i: int| 0 <= i < es.len() implies (#[trigger] out[i]).rel_path
            == es[i].rel_path && out[i].is_dir == es[i].is_dir by {
            if i < es.len() - 1 {
                assert(out[i] == rest[i]);
                assert(es.drop_last()[i] == es[i]);
            }
        }
        assert forall|i: int| 0 <= i < es.len() && (#[trigger] es[i]).is_dir implies out[i].content
            == es[i].content by {
            if i < es.len() - 1 {
                assert(out[i] == rest[i]);
                assert(es.drop_last()[i] == es[i]);
            }
        }
        assert forall|i: int| 0 <= i < es.len() && !(#[trigger] es[i]).is_dir implies out[i].content
            == transform_content(es[i].rel_path, es[i].content, entry, target) by {
            if i < es.len() - 1 {
                assert(out[i] == rest[i]);
                assert(es.drop_last()[i] == es[i]);
            }
        }
    }
}

} // verus!
