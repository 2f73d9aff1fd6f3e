use typkg::config::{template_plan, validate_package_name, TemplateAction, TemplateConfig};
use typkg::error::PkgError;
use typkg::install::{output_package_dir, provider_abbreviation, resolve_install_path};

#[test]
fn install_path_for_gitlab_provider() {
    let p = resolve_install_path("/data/typst", "gitlab.com", "bob", "foo", "0.1.0");
    assert_eq!(p, "/data/typst/packages/gl-bob/foo/0.1.0");
}

#[test]
fn install_path_for_github_provider() {
    let p = resolve_install_path("/root", "github.com", "alice", "widgets", "2.0.0");
    assert_eq!(p, "/root/packages/gh-alice/widgets/2.0.0");
}

#[test]
fn unknown_host_abbreviates_to_first_dns_label() {
    assert_eq!(provider_abbreviation("codeberg.org"), "codeberg");
    assert_eq!(provider_abbreviation("bitbucket.org"), "bb");
    assert_eq!(provider_abbreviation("localhost"), "localhost");
}

#[test]
fn build_output_directory_layout() {
    assert_eq!(output_package_dir("output", "mypkg", "1.0.0"), "output/mypkg/1.0.0");
}

#[test]
fn package_name_must_match_directory_name() {
    assert!(validate_package_name("mypkg", "work/mypkg").is_ok());
    let e = validate_package_name("mypkg", "work/other").unwrap_err();
    match e {
        PkgError::NameMismatch { package, directory } => {
            assert_eq!(package, "mypkg");
            assert_eq!(directory, "other");
        }
        other => panic!("unexpected error: {:?}", other),
    }
}

#[test]
fn unusable_manifest_directory_is_an_error() {
    assert!(matches!(
        validate_package_name("p", ".."),
        Err(PkgError::InvalidDirectory { .. })
    ));
}

#[test]
fn template_with_path_and_entrypoint_compiles() {
    let t = Some(TemplateConfig {
        path: Some("template".to_string()),
        entrypoint: Some("main.typ".to_string()),
        thumbnail: Some("thumb.png".to_string()),
    });
    match template_plan(&t) {
        TemplateAction::Compile { path, entrypoint, thumbnail } => {
            assert_eq!(path, "template");
            assert_eq!(entrypoint, "main.typ");
            assert_eq!(thumbnail.as_deref(), Some("thumb.png"));
        }
        other => panic!("unexpected action: {:?}", other),
    }
}

#[test]
fn empty_template_fields_skip_with_notices() {
    let t = Some(TemplateConfig {
        path: Some(String::new()),
        entrypoint: Some("main.typ".to_string()),
        thumbnail: None,
    });
    match template_plan(&t) {
        TemplateAction::Skip { warn_empty_path, warn_empty_entrypoint } => {
            assert!(warn_empty_path);
            assert!(!warn_empty_entrypoint);
        }
        other => panic!("unexpected action: {:?}", other),
    }
}

#[test]
fn absent_template_section_skips_silently() {
    match template_plan(&None) {
        TemplateAction::Skip { warn_empty_path, warn_empty_entrypoint } => {
            assert!(!warn_empty_path && !warn_empty_entrypoint);
        }
        other => panic!("unexpected action: {:?}", other),
    }
}
