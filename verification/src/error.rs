//! The library's error type.
//!
//! Every fatal condition of the pipeline is one variant, carrying the
//! offending value so that a caller can surface it.

use vstd::prelude::*;

verus! {

#[derive(Debug, Clone, PartialEq, Eq)]
pub enum PkgError {
    /// An exclusion pattern is not valid glob syntax.
    InvalidGlob { pattern: String },
    /// The glob patterns were individually valid but the combined
    /// matcher could not be compiled.
    GlobBuildFailed,
    /// A Git reference is neither a recognized shorthand alias nor a
    /// supported provider URL.
    UnsupportedSource { reference: String },
    /// No manifest file was found under the search root.
    NoManifestFound,
    /// The manifest's compiler requirement is not a valid
    /// version-requirement expression.
    BadVersionReq { expr: String },
    /// The reported compiler version could not be parsed.
    BadCurrentVersion { text: String },
    /// The compiler version does not satisfy the manifest's requirement.
    IncompatibleVersion { required: String, current: String },
    /// The package name does not match its directory name.
    NameMismatch { package: String, directory: String },
    /// The directory path has no usable final component.
    InvalidDirectory { path: String },
    /// The configured entrypoint has no usable file name.
    BadEntrypoint { entrypoint: String },
}

} // verus!
