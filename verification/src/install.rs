//! Deriving the namespaced install path in the local package store.

use vstd::prelude::*;
use crate::text::spec_find;

verus! {

/// The short abbreviation of a provider host: a fixed table for the
/// known hosts, and the first DNS label of any other host.
pub open spec fn provider_abbr_spec(host: Seq<char>) -> Seq<char> {
    if host == ("github.com")@ {
        ("gh")@
    } else if host == ("gitlab.com")@ {
        ("gl")@
    } else if host == ("bitbucket.org")@ {
        ("bb")@
    } else {
        let k = spec_find(host, '.', 0);
        if k < 0 {
            host
        } else {
            host.subrange(0, k)
        }
    }
}

/// The install directory for a package: the store root, the `packages`
/// tree, the `<provider abbreviation>-<owner>` namespace, the package
/// name and the version, joined with `/`.
pub open spec fn install_path_spec(
    store_root: Seq<char>,
    host: Seq<char>,
    owner: Seq<char>,
    package: Seq<char>,
    version: Seq<char>,
) -> Seq<char> {
    store_root + ("/packages/")@ + provider_abbr_spec(host) + ("-")@ + owner + ("/")@ + package
        + ("/")@ + version
}

/// The short abbreviation of a provider host.
pub fn provider_abbreviation(host: &str) -> (r: String)
    ensures
        r@ == provider_abbr_spec(host@),
{
    if crate::text::str_eq(host, "github.com") {
        let a = "gh";
        return a.to_owned();
    }
    if crate::text::str_eq(host, "gitlab.com") {
        let a = "gl";
        return a.to_owned();
    }
    if crate::text::str_eq(host, "bitbucket.org") {
        let a = "bb";
        return a.to_owned();
    }
    match crate::text::find_char_from(host, '.', 0) {
        Some(k) => {
            let label = host.substring_char(0, k);
            label.to_owned()
        },
        None => host.to_owned(),
    }
}

/// Composes the install directory for a package. An existing directory
/// at this path is a valid prior install: the caller overwrites it in
/// place.
pub fn resolve_install_path(
    store_root: &str,
    provider_host: &str,
    owner: &str,
    package_name: &str,
    version: &str,
) -> (r: String)
    ensures
        r@ == install_path_spec(store_root@, provider_host@, owner@, package_name@, version@),
{
    let abbr = provider_abbreviation(provider_host);
    let mut out = String::new();
    out.append(store_root);
    out.append("/packages/");
    out.append(abbr.as_str());
    out.append("-");
    out.append(owner);
    out.append("/");
    out.append(package_name);
    out.append("/");
    out.append(version);
    proof {
        assert(out@ =~= install_path_spec(
            store_root@,
            provider_host@,
            owner@,
            package_name@,
            version@,
        ));
    }
    out
}

/// Composes the output directory of a build: the selected output base,
/// the package name and the version.
pub fn output_package_dir(output_dir: &str, package_name: &str, version: &str) -> (r: String)
    ensures
        r@ == output_dir@ + ("/")@ + package_name@ + ("/")@ + version@,
{
    let mut out = String::new();
    out.append(output_dir);
    out.append("/");
    out.append(package_name);
    out.append("/");
    out.append(version);
    proof {
        assert(out@ =~= output_dir@ + ("/")@ + package_name@ + ("/")@ + version@);
    }
    out
}

/// The `<abbreviation>-<owner>` namespace under which a fetched package
/// is installed.
pub fn install_namespace(provider_host: &str, owner: &str) -> (r: String)
    ensures
        r@ == provider_abbr_spec(provider_host@) + ("-")@ + owner@,
{
    let abbr = provider_abbreviation(provider_host);
    let mut out = String::new();
    out.append(abbr.as_str());
    out.append("-");
    out.append(owner);
    proof {
        assert(out@ =~= provider_abbr_spec(provider_host@) + ("-")@ + owner@);
    }
    out
}

} // verus!
