//! A package-building toolkit for a document-typesetting ecosystem.
//!
//! The library materializes a package source tree into a distributable
//! layout (excluding configured paths, stripping a schema-annotation
//! comment from the manifest, and rewriting relative self-imports into
//! package-qualified imports), resolves Git-hosted package references
//! into concrete clone targets, locates a package manifest inside a
//! cloned tree, checks compiler-version compatibility, and derives the
//! namespaced install path for the local package store.

pub mod compat;
pub mod config;
pub mod error;
pub mod exclude;
pub mod gitsrc;
pub mod install;
pub mod locate;
pub mod materialize;
pub mod rewrite;
pub mod strip;
pub mod text;

use vstd::prelude::*;

verus! {

} // verus!
