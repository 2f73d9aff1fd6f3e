//! Checking the manifest's compiler requirement against the compiler
//! version that is actually available.
//!
//! Requirement parsing, version parsing and requirement evaluation come
//! from the `semver` crate, through the trusted items below; the
//! decision logic around them is verified.

use vstd::prelude::*;
use crate::error::PkgError;

verus! {

/// Declares `semver::Version` to the verifier as an opaque type.
#[verifier::external_type_specification]
#[verifier::external_body]
pub struct ExVersion(semver::Version);

/// Declares `semver::VersionReq` to the verifier as an opaque type.
#[verifier::external_type_specification]
#[verifier::external_body]
pub struct ExVersionReq(semver::VersionReq);

/// Declares `semver::Error` to the verifier as an opaque type.
#[verifier::external_type_specification]
#[verifier::external_body]
pub struct ExSemverError(semver::Error);

/// Whether `s` is valid version-requirement syntax, i.e. whether
/// `semver::VersionReq::parse(s)` succeeds.
pub uninterp spec fn version_req_ok(s: Seq<char>) -> bool;

/// Whether `s` is a valid semantic version, i.e. whether
/// `semver::Version::parse(s)` succeeds.
pub uninterp spec fn version_ok(s: Seq<char>) -> bool;

/// The requirement text a `semver::VersionReq` was parsed from.
pub uninterp spec fn req_text(q: semver::VersionReq) -> Seq<char>;

/// The version text a `semver::Version` was parsed from.
pub uninterp spec fn version_text(v: semver::Version) -> Seq<char>;

/// Whether the version written `ver` satisfies the requirement written
/// `req`; both texts are assumed valid.
pub uninterp spec fn version_req_matches(req: Seq<char>, ver: Seq<char>) -> bool;

/// Relies on `semver::VersionReq::parse`: succeeds exactly on valid
/// requirement syntax; the result stands for the parsed text.
#[verifier::external_body]
fn parse_version_req(s: &str) -> (r: Result<semver::VersionReq, semver::Error>)
    ensures
        r is Ok <==> version_req_ok(s@),
        r matches Ok(q) ==> req_text(q) == s@,
{
    semver::VersionReq::parse(s)
}

/// Relies on `semver::Version::parse`: succeeds exactly on a valid
/// `major.minor.patch` version; the result stands for the parsed text.
#[verifier::external_body]
fn parse_version(s: &str) -> (r: Result<semver::Version, semver::Error>)
    ensures
        r is Ok <==> version_ok(s@),
        r matches Ok(v) ==> version_text(v) == s@,
{
    semver::Version::parse(s)
}

/// Relies on `semver::VersionReq::matches`: whether the version
/// satisfies the requirement, a function of the two parsed texts alone.
#[verifier::external_body]
fn req_matches(q: &semver::VersionReq, v: &semver::Version) -> (r: bool)
    ensures
        r == version_req_matches(req_text(*q), version_text(*v)),
{
    q.matches(v)
}

/// Whether `c` separates the whitespace-delimited tokens of a version
/// report line.
pub open spec fn is_token_ws(c: char) -> bool {
    crate::rewrite::is_space(c)
}

/// The first position at or after `i` that does not hold whitespace.
pub open spec fn skip_ws(s: Seq<char>, i: int) -> int
    decreases s.len() - i when i >= 0
{
    if i < 0 || i >= s.len() {
        s.len() as int
    } else if is_token_ws(s[i]) {
        skip_ws(s, i + 1)
    } else {
        i
    }
}

/// The first position at or after `i` that holds whitespace (or the
/// end of the text).
pub open spec fn skip_non_ws(s: Seq<char>, i: int) -> int
    decreases s.len() - i when i >= 0
{
    if i < 0 || i >= s.len() {
        s.len() as int
    } else if !is_token_ws(s[i]) {
        skip_non_ws(s, i + 1)
    } else {
        i
    }
}

/// The second whitespace-delimited token of `s`, where a version
/// report's first token is the tool name and the second its version.
pub open spec fn second_token(s: Seq<char>) -> Option<Seq<char>> {
    let a = skip_ws(s, 0);
    let b = skip_non_ws(s, a);
    let c = skip_ws(s, b);
    let d = skip_non_ws(s, c);
    if c >= s.len() {
        Option::None
    } else {
        Option::Some(s.subrange(c, d))
    }
}

/// Scans for the first non-whitespace position at or after `i`.
#[verifier::loop_isolation(false)]
fn skip_ws_exec(s: &str, slen: usize, i: usize) -> (r: usize)
    requires
        slen == s@.len(),
        i <= slen,
    ensures
        r == skip_ws(s@, i as int),
        i <= r <= slen,
{
    let mut k: usize = i;
    while k < slen && crate::rewrite::is_space_exec(s.get_char(k))
        invariant
            i <= k <= slen,
            skip_ws(s@, i as int) == skip_ws(s@, k as int),
        decreases slen - k,
    {
        k = k + 1;
    }
    k
}

/// Scans for the first whitespace position at or after `i`.
#[verifier::loop_isolation(false)]
fn skip_non_ws_exec(s: &str, slen: usize, i: usize) -> (r: usize)
    requires
        slen == s@.len(),
        i <= slen,
    ensures
        r == skip_non_ws(s@, i as int),
        i <= r <= slen,
{
    let mut k: usize = i;
    while k < slen && !crate::rewrite::is_space_exec(s.get_char(k))
        invariant
            i <= k <= slen,
            skip_non_ws(s@, i as int) == skip_non_ws(s@, k as int),
        decreases slen - k,
    {
        k = k + 1;
    }
    k
}

/// The second whitespace-delimited token of a version report line, as
/// the exec counterpart of [`second_token`].
pub fn version_token(line: &str) -> (r: Option<String>)
    ensures
        ({
            match second_token(line@) {
                Option::Some(t) => r matches Some(v) && v@ == t,
                Option::None => r is None,
            }
        }),
{
    let slen = line.unicode_len();
    let a = skip_ws_exec(line, slen, 0);
    let b = skip_non_ws_exec(line, slen, a);
    let c = skip_ws_exec(line, slen, b);
    if c >= slen {
        return None;
    }
    let d = skip_non_ws_exec(line, slen, c);
    let tok = line.substring_char(c, d);
    Some(tok.to_owned())
}

/// Checks that the manifest's compiler requirement, when present, is a
/// parseable version-requirement expression. This runs before anything
/// queries the compiler for its version: a malformed requirement is a
/// manifest error on its own, with no compiler involved.
pub fn validate_requirement(required: &Option<String>) -> (r: Result<(), PkgError>)
    ensures
        ({
            match required {
                Option::None => r is Ok,
                Option::Some(e) => {
                    if version_req_ok(e@) {
                        r is Ok
                    } else {
                        r matches Err(PkgError::BadVersionReq { expr }) && expr@ == e@
                    }
                },
            }
        }),
{
    match required {
        Option::None => Ok(()),
        Option::Some(e) => {
            match parse_version_req(e.as_str()) {
                Ok(_) => Ok(()),
                Err(_) => Err(PkgError::BadVersionReq { expr: e.clone() }),
            }
        },
    }
}

/// Checks the manifest's compiler requirement against the current
/// compiler version, written as its version text.
///
/// With no requirement, compatibility trivially holds. An unparseable
/// requirement is a manifest error; an unparseable current version a
/// report error; a requirement the current version does not satisfy is
/// an incompatibility carrying both texts.
pub fn check_compatibility(required: &Option<String>, current: &str) -> (r: Result<(), PkgError>)
    ensures
        ({
            match required {
                Option::None => r is Ok,
                Option::Some(e) => {
                    if !version_req_ok(e@) {
                        r matches Err(PkgError::BadVersionReq { expr }) && expr@ == e@
                    } else if !version_ok(current@) {
                        r matches Err(PkgError::BadCurrentVersion { text }) && text@ == current@
                    } else if version_req_matches(e@, current@) {
                        r is Ok
                    } else {
                        r matches Err(PkgError::IncompatibleVersion { required: q, current: c })
                            && q@ == e@ && c@ == current@
                    }
                },
            }
        }),
{
    match required {
        Option::None => Ok(()),
        Option::Some(e) => {
            let q = match parse_version_req(e.as_str()) {
                Ok(q) => q,
                Err(_) => {
                    return Err(PkgError::BadVersionReq { expr: e.clone() });
                },
            };
            let v = match parse_version(current) {
                Ok(v) => v,
                Err(_) => {
                    return Err(PkgError::BadCurrentVersion { text: current.to_owned() });
                },
            };
            if req_matches(&q, &v) {
                Ok(())
            } else {
                Err(PkgError::IncompatibleVersion {
                    required: e.clone(),
                    current: current.to_owned(),
                })
            }
        },
    }
}

} // verus!
