use typkg::config::entrypoint_file_name;
use typkg::error::PkgError;
use typkg::rewrite::{import_target, rewrite_imports};

#[test]
fn rewrites_double_parent_import() {
    let target = import_target("preview/mypkg", "1.0.0");
    let out = rewrite_imports("#import \"../../main.typ\"", "main.typ", target.as_str());
    assert_eq!(out, "#import \"@preview/mypkg:1.0.0\"");
}

#[test]
fn rewrites_single_parent_import_and_keeps_selector() {
    let target = import_target("preview/mypkg", "1.0.0");
    let out = rewrite_imports("#import \"../main.typ: foo\"", "main.typ", target.as_str());
    assert_eq!(out, "#import \"@preview/mypkg:1.0.0: foo\"");
}

#[test]
fn leaves_sibling_import_unchanged() {
    let target = import_target("preview/mypkg", "1.0.0");
    let out = rewrite_imports("#import \"other.typ\"", "main.typ", target.as_str());
    assert_eq!(out, "#import \"other.typ\"");
}

#[test]
fn leaves_non_parent_import_of_entrypoint_unchanged() {
    let target = import_target("preview/mypkg", "1.0.0");
    let out = rewrite_imports("#import \"main.typ\"", "main.typ", target.as_str());
    assert_eq!(out, "#import \"main.typ\"");
}

#[test]
fn rewrites_inside_surrounding_text() {
    let target = import_target("preview/mypkg", "0.2.1");
    let src = "= Title\n#import \"../main.typ\"\nbody text\n";
    let out = rewrite_imports(src, "main.typ", target.as_str());
    assert_eq!(out, "= Title\n#import \"@preview/mypkg:0.2.1\"\nbody text\n");
}

#[test]
fn rewrites_every_occurrence() {
    let target = import_target("preview/p", "1.0.0");
    let src = "#import \"../m.typ\"\n#import \"../../m.typ: a, b\"";
    let out = rewrite_imports(src, "m.typ", target.as_str());
    assert_eq!(out, "#import \"@preview/p:1.0.0\"\n#import \"@preview/p:1.0.0: a, b\"");
}

#[test]
fn accepts_extra_whitespace_after_import_keyword() {
    let target = import_target("preview/p", "1.0.0");
    let out = rewrite_imports("#import   \"../m.typ\"", "m.typ", target.as_str());
    assert_eq!(out, "#import \"@preview/p:1.0.0\"");
}

#[test]
fn leaves_unterminated_selector_unchanged() {
    let target = import_target("preview/p", "1.0.0");
    let out = rewrite_imports("#import \"../m.typ: oops", "m.typ", target.as_str());
    assert_eq!(out, "#import \"../m.typ: oops");
}

#[test]
fn entrypoint_file_name_takes_final_component() {
    assert_eq!(entrypoint_file_name("src/main.typ").unwrap(), "main.typ");
    assert_eq!(entrypoint_file_name("main.typ").unwrap(), "main.typ");
}

#[test]
fn entrypoint_without_usable_name_is_an_error() {
    let e = entrypoint_file_name("..").unwrap_err();
    match e {
        PkgError::BadEntrypoint { entrypoint } => assert_eq!(entrypoint, ".."),
        other => panic!("unexpected error: {:?}", other),
    }
    assert!(matches!(entrypoint_file_name("/"), Err(PkgError::BadEntrypoint { .. })));
}
