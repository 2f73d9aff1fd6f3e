use typkg::materialize::{materialize_entries, TreeEntry};

fn file(path: &str, content: &str) -> TreeEntry {
    TreeEntry { rel_path: path.to_string(), is_dir: false, content: content.to_string() }
}

fn dir(path: &str) -> TreeEntry {
    TreeEntry { rel_path: path.to_string(), is_dir: true, content: String::new() }
}

#[test]
fn empty_exclusions_reproduce_every_entry() {
    let entries = vec![
        dir(""),
        file("typst.toml", "#:schema x\n[package]\nname = \"p\""),
        dir("src"),
        file("src/lib.typ", "#import \"../main.typ\"\n"),
        file("README.md", "hello\r\nworld"),
    ];
    let patterns: Vec<String> = vec![];
    let out = materialize_entries(&entries, &patterns, "main.typ", "@preview/p:1.0.0").unwrap();
    assert_eq!(out.len(), entries.len());
    let paths: Vec<&str> = out.iter().map(|e| e.rel_path.as_str()).collect();
    assert_eq!(paths, vec!["", "typst.toml", "src", "src/lib.typ", "README.md"]);
    assert_eq!(out[1].content, "[package]\nname = \"p\"");
    assert_eq!(out[3].content, "#import \"@preview/p:1.0.0\"\n");
    assert_eq!(out[4].content, "hello\r\nworld");
}

#[test]
fn excluded_directory_drops_its_subtree() {
    let entries = vec![
        dir(""),
        dir("build"),
        file("build/out.pdf", "x"),
        file("keep.txt", "y"),
    ];
    let patterns = vec!["build".to_string()];
    let out = materialize_entries(&entries, &patterns, "main.typ", "@preview/p:1.0.0").unwrap();
    let paths: Vec<&str> = out.iter().map(|e| e.rel_path.as_str()).collect();
    assert_eq!(paths, vec!["", "keep.txt"]);
}

#[test]
fn glob_excluded_directory_drops_descendants_too() {
    let entries = vec![
        dir("a.tmp"),
        file("a.tmp/inner.txt", "x"),
        file("b.txt", "y"),
    ];
    let patterns = vec!["*.tmp".to_string()];
    let out = materialize_entries(&entries, &patterns, "main.typ", "@preview/p:1.0.0").unwrap();
    let paths: Vec<&str> = out.iter().map(|e| e.rel_path.as_str()).collect();
    assert_eq!(paths, vec!["b.txt"]);
}

#[test]
fn manifest_anywhere_in_tree_is_stripped() {
    let entries = vec![file("sub/typst.toml", "#:schema s\nname = \"q\"")];
    let patterns: Vec<String> = vec![];
    let out = materialize_entries(&entries, &patterns, "main.typ", "@t:1").unwrap();
    assert_eq!(out[0].content, "name = \"q\"");
}

#[test]
fn non_typ_files_are_not_rewritten() {
    let entries = vec![file("notes.txt", "#import \"../main.typ\"")];
    let patterns: Vec<String> = vec![];
    let out = materialize_entries(&entries, &patterns, "main.typ", "@t:1").unwrap();
    assert_eq!(out[0].content, "#import \"../main.typ\"");
}

#[test]
fn invalid_pattern_aborts_materialization() {
    let entries = vec![file("a.txt", "x")];
    let patterns = vec!["{bad".to_string()];
    let r = materialize_entries(&entries, &patterns, "main.typ", "@t:1");
    assert!(matches!(r, Err(typkg::error::PkgError::InvalidGlob { .. })));
}
