use typkg::compat::{check_compatibility, validate_requirement, version_token};
use typkg::error::PkgError;

#[test]
fn requirement_validation_passes_without_querying_a_version() {
    assert!(validate_requirement(&None).is_ok());
    assert!(validate_requirement(&Some("^1.2".to_string())).is_ok());
}

#[test]
fn requirement_validation_rejects_malformed_expression() {
    let e = validate_requirement(&Some("not-a-req!!".to_string())).unwrap_err();
    match e {
        PkgError::BadVersionReq { expr } => assert_eq!(expr, "not-a-req!!"),
        other => panic!("unexpected error: {:?}", other),
    }
}

#[test]
fn caret_requirement_accepts_compatible_version() {
    let required = Some("^1.2".to_string());
    assert!(check_compatibility(&required, "1.3.0").is_ok());
}

#[test]
fn caret_requirement_rejects_major_bump_with_both_values() {
    let required = Some("^1.2".to_string());
    let e = check_compatibility(&required, "2.0.0").unwrap_err();
    match e {
        PkgError::IncompatibleVersion { required, current } => {
            assert_eq!(required, "^1.2");
            assert_eq!(current, "2.0.0");
        }
        other => panic!("unexpected error: {:?}", other),
    }
}

#[test]
fn missing_requirement_trivially_passes() {
    assert!(check_compatibility(&None, "0.0.0").is_ok());
}

#[test]
fn malformed_requirement_is_a_manifest_error() {
    let required = Some("not-a-req!!".to_string());
    let e = check_compatibility(&required, "1.0.0").unwrap_err();
    match e {
        PkgError::BadVersionReq { expr } => assert_eq!(expr, "not-a-req!!"),
        other => panic!("unexpected error: {:?}", other),
    }
}

#[test]
fn malformed_current_version_is_reported() {
    let required = Some("^1.0".to_string());
    let e = check_compatibility(&required, "abc").unwrap_err();
    match e {
        PkgError::BadCurrentVersion { text } => assert_eq!(text, "abc"),
        other => panic!("unexpected error: {:?}", other),
    }
}

#[test]
fn version_token_takes_second_whitespace_token() {
    assert_eq!(version_token("typst 0.12.0 (abcdef)").unwrap(), "0.12.0");
    assert_eq!(version_token("  typst   0.10.0").unwrap(), "0.10.0");
}

#[test]
fn version_token_requires_a_second_token() {
    assert_eq!(version_token("typst"), None);
    assert_eq!(version_token(""), None);
    assert_eq!(version_token("   "), None);
}
