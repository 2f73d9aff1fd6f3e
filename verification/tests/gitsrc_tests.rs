use typkg::error::PkgError;
use typkg::gitsrc::parse_git_source;

#[test]
fn alias_resolves_to_github_clone_url() {
    let d = parse_git_source("gh/alice/widgets").unwrap();
    assert_eq!(d.repo_url_for_clone, "https://github.com/alice/widgets.git");
    assert_eq!(d.git_ref, None);
    assert_eq!(d.path_in_repo, "");
    assert_eq!(d.provider_host, "github.com");
    assert_eq!(d.user_or_org, "alice");
}

#[test]
fn alias_is_case_insensitive() {
    let d = parse_git_source("GH/alice/widgets").unwrap();
    assert_eq!(d.repo_url_for_clone, "https://github.com/alice/widgets.git");
    let d2 = parse_git_source("GitLab/bob/tool").unwrap();
    assert_eq!(d2.repo_url_for_clone, "https://gitlab.com/bob/tool.git");
}

#[test]
fn alias_with_sub_path() {
    let d = parse_git_source("bb/carol/repo/pkg/inner").unwrap();
    assert_eq!(d.repo_url_for_clone, "https://bitbucket.org/carol/repo.git");
    assert_eq!(d.path_in_repo, "pkg/inner");
    assert_eq!(d.provider_host, "bitbucket.org");
}

#[test]
fn github_url_with_tree_ref_and_sub_path() {
    let d = parse_git_source("https://github.com/alice/widgets/tree/v2/pkg").unwrap();
    assert_eq!(d.repo_url_for_clone, "https://github.com/alice/widgets.git");
    assert_eq!(d.git_ref.as_deref(), Some("v2"));
    assert_eq!(d.path_in_repo, "pkg");
    assert_eq!(d.user_or_org, "alice");
}

#[test]
fn gitlab_url_with_tree_ref_and_sub_path() {
    let d = parse_git_source("https://gitlab.com/alice/widgets/-/tree/main/sub").unwrap();
    assert_eq!(d.git_ref.as_deref(), Some("main"));
    assert_eq!(d.path_in_repo, "sub");
    assert_eq!(d.repo_url_for_clone, "https://gitlab.com/alice/widgets.git");
}

#[test]
fn plain_github_url_without_ref() {
    let d = parse_git_source("https://github.com/alice/widgets").unwrap();
    assert_eq!(d.repo_url_for_clone, "https://github.com/alice/widgets.git");
    assert_eq!(d.git_ref, None);
    assert_eq!(d.path_in_repo, "");
}

#[test]
fn github_url_with_git_suffix() {
    let d = parse_git_source("https://github.com/alice/widgets.git").unwrap();
    assert_eq!(d.repo_url_for_clone, "https://github.com/alice/widgets.git");
}

#[test]
fn url_with_www_prefix_is_normalized() {
    let d = parse_git_source("https://www.github.com/alice/widgets").unwrap();
    assert_eq!(d.provider_host, "github.com");
    assert_eq!(d.repo_url_for_clone, "https://github.com/alice/widgets.git");
}

#[test]
fn github_url_sub_path_without_ref_marker() {
    let d = parse_git_source("https://github.com/alice/widgets/pkg/inner").unwrap();
    assert_eq!(d.git_ref, None);
    assert_eq!(d.path_in_repo, "pkg/inner");
}

#[test]
fn unsupported_host_is_an_error() {
    let e = parse_git_source("https://example.com/alice/widgets").unwrap_err();
    match e {
        PkgError::UnsupportedSource { reference } => {
            assert_eq!(reference, "https://example.com/alice/widgets");
        }
        other => panic!("unexpected error: {:?}", other),
    }
}

#[test]
fn unparseable_reference_is_an_error() {
    let e = parse_git_source("not a url at all").unwrap_err();
    assert!(matches!(e, PkgError::UnsupportedSource { .. }));
}

#[test]
fn url_with_empty_repository_segment_is_an_error() {
    let e = parse_git_source("https://github.com/alice//x").unwrap_err();
    assert!(matches!(e, PkgError::UnsupportedSource { .. }));
}

#[test]
fn url_whose_repository_is_only_the_git_suffix_is_an_error() {
    let e = parse_git_source("https://github.com/alice/.git").unwrap_err();
    assert!(matches!(e, PkgError::UnsupportedSource { .. }));
}

#[test]
fn url_with_empty_owner_segment_is_an_error() {
    let e = parse_git_source("https://github.com//widgets").unwrap_err();
    assert!(matches!(e, PkgError::UnsupportedSource { .. }));
}

#[test]
fn alias_with_unknown_provider_falls_through_to_url_parsing() {
    let e = parse_git_source("xy/alice/widgets").unwrap_err();
    assert!(matches!(e, PkgError::UnsupportedSource { .. }));
}
