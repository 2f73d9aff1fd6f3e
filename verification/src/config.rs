//! The package manifest model, and the checks and decisions made on it.

use vstd::prelude::*;
use crate::error::PkgError;
use crate::text::{base_name, usable_base_name, base_name_of};

verus! {

/// The `package` section of a manifest.
#[derive(Debug, Clone)]
pub struct PackageConfig {
    pub name: String,
    pub version: String,
    pub exclude: Option<Vec<String>>,
    pub entrypoint: Option<String>,
    pub compiler: Option<String>,
}

/// The optional `template` section of a manifest.
#[derive(Debug, Clone)]
pub struct TemplateConfig {
    pub path: Option<String>,
    pub entrypoint: Option<String>,
    pub thumbnail: Option<String>,
}

/// A whole manifest.
#[derive(Debug, Clone)]
pub struct Config {
    pub package: PackageConfig,
    pub template: Option<TemplateConfig>,
}

/// Checks that the package's declared name equals the name of the
/// directory that holds its manifest.
pub fn validate_package_name(package_name: &str, toml_dir: &str) -> (r: Result<(), PkgError>)
    ensures
        ({
            let b = base_name(toml_dir@);
            match r {
                Ok(()) => usable_base_name(b) && package_name@ == b,
                Err(PkgError::InvalidDirectory { path }) => !usable_base_name(b)
                    && path@ == toml_dir@,
                Err(PkgError::NameMismatch { package, directory }) => usable_base_name(b)
                    && package_name@ != b && package@ == package_name@ && directory@ == b,
                Err(_) => false,
            }
        }),
{
    let base = base_name_of(toml_dir);
    proof {
        reveal_strlit(".");
        reveal_strlit("..");
        assert("."@ =~= seq!['.']);
        assert(".."@ =~= seq!['.', '.']);
    }
    if base.as_str().unicode_len() == 0
        || crate::text::str_eq(base.as_str(), ".")
        || crate::text::str_eq(base.as_str(), "..")
    {
        return Err(PkgError::InvalidDirectory { path: toml_dir.to_owned() });
    }
    if crate::text::str_eq(package_name, base.as_str()) {
        Ok(())
    } else {
        Err(PkgError::NameMismatch { package: package_name.to_owned(), directory: base })
    }
}

/// The file name the import rewriter anchors on: the final component
/// of the manifest's configured entrypoint path. An entrypoint whose
/// path has no usable final component is a configuration error.
pub fn entrypoint_file_name(entrypoint: &str) -> (r: Result<String, PkgError>)
    ensures
        ({
            let b = base_name(entrypoint@);
            match r {
                Ok(name) => usable_base_name(b) && name@ == b,
                Err(PkgError::BadEntrypoint { entrypoint: e }) => !usable_base_name(b)
                    && e@ == entrypoint@,
                Err(_) => false,
            }
        }),
{
    let base = base_name_of(entrypoint);
    proof {
        reveal_strlit(".");
        reveal_strlit("..");
        assert("."@ =~= seq!['.']);
        assert(".."@ =~= seq!['.', '.']);
    }
    if base.as_str().unicode_len() == 0
        || crate::text::str_eq(base.as_str(), ".")
        || crate::text::str_eq(base.as_str(), "..")
    {
        return Err(PkgError::BadEntrypoint { entrypoint: entrypoint.to_owned() });
    }
    Ok(base)
}

/// What the build step does with the manifest's `template` section.
#[derive(Debug, Clone)]
pub enum TemplateAction {
    /// Compile the template, and render the thumbnail when one is set.
    Compile { path: String, entrypoint: String, thumbnail: Option<String> },
    /// Do not compile; the flags say which informational notices to print.
    Skip { warn_empty_path: bool, warn_empty_entrypoint: bool },
}

/// Decides whether the `template` section asks for a compilation.
///
/// Compilation happens exactly when both `path` and `entrypoint` are set
/// and non-empty; the thumbnail is rendered when `thumbnail` is also set
/// and non-empty. When `path` and `entrypoint` are set but one of them
/// is empty, that is an informational notice, not an error.
pub fn template_plan(template: &Option<TemplateConfig>) -> (r: TemplateAction)
    ensures
        ({
            match template {
                Option::None => r matches TemplateAction::Skip { warn_empty_path: false, warn_empty_entrypoint: false },
                Option::Some(t) => {
                    match (&t.path, &t.entrypoint) {
                        (Option::Some(p), Option::Some(e)) => {
                            if p@.len() > 0 && e@.len() > 0 {
                                match r {
                                    TemplateAction::Compile { path, entrypoint, thumbnail } => {
                                        &&& path@ == p@
                                        &&& entrypoint@ == e@
                                        &&& match (&t.thumbnail, thumbnail) {
                                            (Option::Some(th), Option::Some(rth)) => th@ == rth@ && th@.len() > 0,
                                            (Option::Some(th), Option::None) => th@.len() == 0,
                                            (Option::None, Option::None) => true,
                                            (Option::None, Option::Some(_)) => false,
                                        }
                                    },
                                    _ => false,
                                }
                            } else {
                                r == (TemplateAction::Skip {
                                    warn_empty_path: p@.len() == 0,
                                    warn_empty_entrypoint: e@.len() == 0,
                                })
                            }
                        },
                        _ => r matches TemplateAction::Skip { warn_empty_path: false, warn_empty_entrypoint: false },
                    }
                },
            }
        }),
{
    match template {
        Option::None => TemplateAction::Skip { warn_empty_path: false, warn_empty_entrypoint: false },
        Option::Some(t) => {
            match (&t.path, &t.entrypoint) {
                (Option::Some(p), Option::Some(e)) => {
                    let p_len = p.as_str().unicode_len();
                    let e_len = e.as_str().unicode_len();
                    if p_len > 0 && e_len > 0 {
                        let thumbnail = match &t.thumbnail {
                            Option::Some(th) => {
                                if th.as_str().unicode_len() > 0 {
                                    Option::Some(th.clone())
                                } else {
                                    Option::None
                                }
                            },
                            Option::None => Option::None,
                        };
                        TemplateAction::Compile { path: p.clone(), entrypoint: e.clone(), thumbnail }
                    } else {
                        TemplateAction::Skip {
                            warn_empty_path: p_len == 0,
                            warn_empty_entrypoint: e_len == 0,
                        }
                    }
                },
                _ => TemplateAction::Skip { warn_empty_path: false, warn_empty_entrypoint: false },
            }
        },
    }
}

} // verus!
