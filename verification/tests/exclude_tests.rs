use typkg::error::PkgError;
use typkg::exclude::{has_glob_metacharacters, ExcludeMatcher};

fn matcher(patterns: &[&str], is_dir: &[bool]) -> ExcludeMatcher {
    let pats: Vec<String> = patterns.iter().map(|p| p.to_string()).collect();
    let dirs: Vec<bool> = is_dir.to_vec();
    ExcludeMatcher::new(&pats, &dirs).unwrap()
}

#[test]
fn glob_pattern_matches_path() {
    let m = matcher(&["*.tmp"], &[false]);
    assert!(m.is_excluded("draft.tmp"));
    assert!(!m.is_excluded("draft.txt"));
}

#[test]
fn recursive_glob_matches_nested_path() {
    let m = matcher(&["**/*.bak"], &[false]);
    assert!(m.is_excluded("a/b/file.bak"));
    assert!(!m.is_excluded("a/b/file.typ"));
}

#[test]
fn directory_anchor_excludes_whole_subtree() {
    let m = matcher(&["build"], &[true]);
    assert!(m.is_excluded("build"));
    assert!(m.is_excluded("build/out.pdf"));
    assert!(m.is_excluded("build/sub/deep.txt"));
    assert!(!m.is_excluded("builder"));
    assert!(!m.is_excluded("src/build.typ"));
}

#[test]
fn trailing_separator_marks_a_directory_anchor() {
    let m = matcher(&["cache/"], &[false]);
    assert!(m.is_excluded("cache"));
    assert!(m.is_excluded("cache/entry"));
    assert!(!m.is_excluded("caches"));
}

#[test]
fn plain_pattern_without_directory_is_no_anchor() {
    let m = matcher(&["notes"], &[false]);
    assert!(!m.is_excluded("notes/inner.txt"));
}

#[test]
fn invalid_glob_is_reported_with_its_pattern() {
    let pats: Vec<String> = vec!["ok".to_string(), "a{b".to_string()];
    let dirs = vec![false, false];
    let e = match ExcludeMatcher::new(&pats, &dirs) {
        Err(e) => e,
        Ok(_) => panic!("expected an invalid-glob error"),
    };
    match e {
        PkgError::InvalidGlob { pattern } => assert_eq!(pattern, "a{b"),
        other => panic!("unexpected error: {:?}", other),
    }
}

#[test]
fn glob_metacharacter_detection() {
    assert!(has_glob_metacharacters("*.tmp"));
    assert!(has_glob_metacharacters("a?c"));
    assert!(has_glob_metacharacters("x[ab]"));
    assert!(!has_glob_metacharacters("plain/dir"));
}
