use typkg::error::PkgError;
use typkg::locate::{locate_manifest, parent_dir, select_candidate, LocateDecision};

#[test]
fn expected_location_is_authoritative() {
    assert_eq!(locate_manifest(true, 5).unwrap(), LocateDecision::UseExpected);
}

#[test]
fn zero_candidates_is_a_hard_failure() {
    assert!(matches!(locate_manifest(false, 0), Err(PkgError::NoManifestFound)));
}

#[test]
fn one_candidate_resolves_unambiguously() {
    assert_eq!(locate_manifest(false, 1).unwrap(), LocateDecision::UseCandidate { index: 0 });
}

#[test]
fn many_candidates_need_a_selection() {
    assert_eq!(locate_manifest(false, 3).unwrap(), LocateDecision::NeedsSelection);
}

#[test]
fn selecting_index_two_of_three_returns_the_second_candidate() {
    let candidates = vec![
        "a/typst.toml".to_string(),
        "b/typst.toml".to_string(),
        "c/d/typst.toml".to_string(),
    ];
    let picked = select_candidate(&candidates, 2).unwrap();
    assert_eq!(picked, "b/typst.toml");
}

#[test]
fn out_of_range_selection_is_rejected() {
    let candidates = vec!["a/typst.toml".to_string()];
    assert_eq!(select_candidate(&candidates, 0), None);
    assert_eq!(select_candidate(&candidates, 2), None);
}

#[test]
fn parent_of_manifest_path_is_the_source_root() {
    assert_eq!(parent_dir("sub/pkg/typst.toml"), "sub/pkg");
    assert_eq!(parent_dir("typst.toml"), "");
}
