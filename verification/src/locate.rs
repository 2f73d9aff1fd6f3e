//! Locating the package manifest inside a cloned repository.
//!
//! The expected location is authoritative when a manifest sits there.
//! Otherwise the caller walks the search root, collects every file
//! named like the manifest, and the decision below says whether that
//! search failed, settled on one candidate, or needs an explicit
//! selection by the operator.

use vstd::prelude::*;
use crate::error::PkgError;
use crate::text::spec_rfind;

verus! {

/// Where the manifest was found.
#[derive(Debug, Clone, PartialEq, Eq)]
pub enum LocateDecision {
    /// The manifest sits at the expected location; no search happened.
    UseExpected,
    /// Exactly one candidate was found; its index is given.
    UseCandidate { index: usize },
    /// Several candidates were found; the operator must select one.
    NeedsSelection,
}

/// Decides how the manifest search ends: the expected location wins
/// outright; with no candidate the search is a hard failure; one
/// candidate is used as it stands; more than one needs a selection.
pub fn locate_manifest(direct_exists: bool, num_candidates: usize) -> (r: Result<
    LocateDecision,
    PkgError,
>)
    ensures
        direct_exists ==> r == Ok::<LocateDecision, PkgError>(LocateDecision::UseExpected),
        !direct_exists && num_candidates == 0 ==> r == Err::<LocateDecision, PkgError>(
            PkgError::NoManifestFound,
        ),
        !direct_exists && num_candidates == 1 ==> r == Ok::<LocateDecision, PkgError>(
            LocateDecision::UseCandidate { index: 0 },
        ),
        !direct_exists && num_candidates > 1 ==> r == Ok::<LocateDecision, PkgError>(
            LocateDecision::NeedsSelection,
        ),
{
    if direct_exists {
        Ok(LocateDecision::UseExpected)
    } else if num_candidates == 0 {
        Err(PkgError::NoManifestFound)
    } else if num_candidates == 1 {
        Ok(LocateDecision::UseCandidate { index: 0 })
    } else {
        Ok(LocateDecision::NeedsSelection)
    }
}

/// Resolves a 1-based selection against the candidate list: `Some`
/// exactly when the index is in range, holding that candidate.
pub fn select_candidate(candidates: &Vec<String>, choice: usize) -> (r: Option<String>)
    ensures
        match r {
            Some(p) => 1 <= choice <= candidates@.len() && p@ == candidates@[choice - 1]@,
            None => choice < 1 || choice > candidates@.len(),
        },
{
    if choice >= 1 && choice <= candidates.len() {
        Some(candidates[choice - 1].clone())
    } else {
        None
    }
}

/// The directory part of a `/`-separated path: everything before the
/// last separator, empty when there is none.
pub open spec fn parent_dir_spec(p: Seq<char>) -> Seq<char> {
    let k = spec_rfind(p, '/', p.len() as int);
    if k < 0 {
        Seq::empty()
    } else {
        p.subrange(0, k)
    }
}

/// The directory that holds `path`: the part before the last `/`.
/// A manifest found at `sub/typst.toml` makes `sub` the package source
/// root; one at the search root itself makes that root (here, the
/// empty relative path) the source root.
pub fn parent_dir(path: &str) -> (r: String)
    ensures
        r@ == parent_dir_spec(path@),
{
    match crate::text::rfind_char(path, '/') {
        Some(k) => {
            let p = path.substring_char(0, k);
            p.to_owned()
        },
        None => String::new(),
    }
}

} // verus!
