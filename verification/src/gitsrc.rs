//! Resolving a user-supplied Git reference into a clone target.
//!
//! Two grammars are tried in order: a shorthand alias
//! `<provider>/<owner>/<repo>[/<sub-path>]` over a fixed provider table,
//! and a full URL whose host decides how a ref and a sub-path are read
//! out of the path segments. URL parsing itself comes from the `url`
//! crate, through the trusted item below; everything around it is
//! verified against the grammar spelled out by the spec functions here.

use vstd::prelude::*;
use crate::error::PkgError;
use crate::text::{spec_find, lower_seq, join_char_from};

verus! {

/// A resolved Git source: where to clone from, which ref to check out,
/// and where inside the repository the package lives.
#[derive(Debug, Clone)]
pub struct GitSourceDescriptor {
    pub repo_url_for_clone: String,
    pub git_ref: Option<String>,
    pub path_in_repo: String,
    pub provider_host: String,
    pub user_or_org: String,
}

/// The mathematical shape of a resolved descriptor.
pub struct DescModel {
    pub clone_url: Seq<char>,
    pub git_ref: Option<Seq<char>>,
    pub path_in_repo: Seq<char>,
    pub provider_host: Seq<char>,
    pub user_or_org: Seq<char>,
}

/// The view of an optional string.
pub open spec fn opt_view(o: Option<String>) -> Option<Seq<char>> {
    match o {
        Option::Some(x) => Option::Some(x@),
        Option::None => Option::None,
    }
}

/// Whether the executable descriptor carries exactly the model's values.
pub open spec fn desc_matches(d: GitSourceDescriptor, m: DescModel) -> bool {
    &&& d.repo_url_for_clone@ == m.clone_url
    &&& opt_view(d.git_ref) == m.git_ref
    &&& d.path_in_repo@ == m.path_in_repo
    &&& d.provider_host@ == m.provider_host
    &&& d.user_or_org@ == m.user_or_org
}

/// The provider table of the shorthand alias grammar.
pub open spec fn alias_host(p: Seq<char>) -> Option<Seq<char>> {
    if p == ("gh")@ || p == ("github")@ {
        Option::Some(("github.com")@)
    } else if p == ("gl")@ || p == ("gitlab")@ {
        Option::Some(("gitlab.com")@)
    } else if p == ("bb")@ || p == ("bitbucket")@ {
        Option::Some(("bitbucket.org")@)
    } else {
        Option::None
    }
}

/// The clone URL synthesized for a host, owner and repository.
pub open spec fn clone_url_of(host: Seq<char>, user: Seq<char>, repo: Seq<char>) -> Seq<char> {
    ("https://")@ + host + ("/")@ + user + ("/")@ + repo + (".git")@
}

/// What the shorthand alias grammar makes of `s`: the part before the
/// first `/` is the provider alias (matched case-insensitively against
/// the table), the part up to the second `/` the owner, then the
/// repository, and whatever follows the repository is the sub-path.
/// `None` when the grammar does not apply, so that URL parsing is tried.
pub open spec fn alias_resolve(s: Seq<char>) -> Option<DescModel> {
    let i1 = spec_find(s, '/', 0);
    let i2 = if i1 < 0 { -1 } else { spec_find(s, '/', i1 + 1) };
    if i1 < 0 || i2 < 0 {
        Option::None
    } else {
        let provider = s.subrange(0, i1);
        let user = s.subrange(i1 + 1, i2);
        let rest = s.subrange(i2 + 1, s.len() as int);
        match alias_host(lower_seq(provider)) {
            Option::None => Option::None,
            Option::Some(host) => {
                if user.len() == 0 || rest.len() == 0 {
                    Option::None
                } else {
                    let j = spec_find(rest, '/', 0);
                    let repo = if j < 0 { rest } else { rest.subrange(0, j) };
                    let path = if j < 0 { Seq::empty() } else {
                        rest.subrange(j + 1, rest.len() as int)
                    };
                    if repo.len() == 0 {
                        Option::None
                    } else {
                        Option::Some(DescModel {
                            clone_url: clone_url_of(host, user, repo),
                            git_ref: Option::None,
                            path_in_repo: path,
                            provider_host: host,
                            user_or_org: user,
                        })
                    }
                }
            },
        }
    }
}

/// A host in lower case with one leading `www.` removed.
pub open spec fn normalize_host(h: Seq<char>) -> Seq<char> {
    let low = lower_seq(h);
    if low.len() >= 4 && low.subrange(0, 4) == ("www.")@ {
        low.subrange(4, low.len() as int)
    } else {
        low
    }
}

/// A repository name with one trailing `.git` removed.
pub open spec fn strip_git_suffix(r: Seq<char>) -> Seq<char> {
    if r.len() >= 4 && r.subrange(r.len() - 4, r.len() as int) == (".git")@ {
        r.subrange(0, r.len() - 4)
    } else {
        r
    }
}

/// What the URL grammar makes of a parsed URL's host and path segments.
/// Only the two hosts below are supported. The first two segments are
/// the owner and the repository, and both must be non-empty once a
/// trailing `.git` is stripped from the repository (a clone URL needs a
/// real repository name); on `github.com` a third segment `tree` or
/// `blob` marks the fourth as the ref, on `gitlab.com` the marker is
/// the segment pair `-`/`tree` or `-`/`blob`; the remaining segments
/// form the sub-path.
pub open spec fn url_resolve(host_raw: Seq<char>, segs: Seq<Seq<char>>) -> Option<DescModel> {
    let host = normalize_host(host_raw);
    if host != ("github.com")@ && host != ("gitlab.com")@ {
        Option::None
    } else if segs.len() < 2 {
        Option::None
    } else if segs[0].len() == 0 || strip_git_suffix(segs[1]).len() == 0 {
        Option::None
    } else {
        let user = segs[0];
        let repo = strip_git_suffix(segs[1]);
        let clone = clone_url_of(host, user, repo);
        if host == ("github.com")@ {
            if segs.len() > 3 && (segs[2] == ("tree")@ || segs[2] == ("blob")@) {
                Option::Some(DescModel {
                    clone_url: clone,
                    git_ref: Option::Some(segs[3]),
                    path_in_repo: join_char_from(segs, 4, '/'),
                    provider_host: host,
                    user_or_org: user,
                })
            } else {
                Option::Some(DescModel {
                    clone_url: clone,
                    git_ref: Option::None,
                    path_in_repo: if segs.len() > 2 { join_char_from(segs, 2, '/') } else { Seq::empty() },
                    provider_host: host,
                    user_or_org: user,
                })
            }
        } else {
            if segs.len() > 4 && segs[2] == ("-")@ && (segs[3] == ("tree")@ || segs[3] == ("blob")@) {
                Option::Some(DescModel {
                    clone_url: clone,
                    git_ref: Option::Some(segs[4]),
                    path_in_repo: join_char_from(segs, 5, '/'),
                    provider_host: host,
                    user_or_org: user,
                })
            } else {
                Option::Some(DescModel {
                    clone_url: clone,
                    git_ref: Option::None,
                    path_in_repo: if segs.len() > 2 { join_char_from(segs, 2, '/') } else { Seq::empty() },
                    provider_host: host,
                    user_or_org: user,
                })
            }
        }
    }
}

/// The host of `s` parsed as a URL, `None` when `s` does not parse or
/// the URL has no host. The `url` crate's parse result depends on the
/// input text alone.
pub uninterp spec fn url_host_of(s: Seq<char>) -> Option<Seq<char>>;

/// The path segments of `s` parsed as a URL, `None` when `s` does not
/// parse or the URL cannot be segmented (it is not a base).
pub uninterp spec fn url_path_segments_of(s: Seq<char>) -> Option<Seq<Seq<char>>>;

/// Relies on `url::Url::parse` (WHATWG URL parsing), `Url::host_str`
/// and `Url::path_segments`: the host of the parsed URL, and the
/// `/`-separated segments of its path. `None` when the text does not
/// parse as an absolute URL, the URL has no host, or it has no
/// segmentable path.
#[verifier::external_body]
fn url_host_and_segments(s: &str) -> (r: Option<(String, Vec<String>)>)
    ensures
        r is Some <==> (url_host_of(s@) is Some && url_path_segments_of(s@) is Some),
        r matches Some(p) ==> url_host_of(s@) == Some(p.0@),
        r matches Some(p) ==> url_path_segments_of(s@) == Some(p.1@.map_values(|v: String| v@)),
{
    let parsed = url::Url::parse(s).ok()?;
    let host = parsed.host_str()?.to_string();
    let segs: Vec<String> = parsed.path_segments()?.map(|p| p.to_string()).collect();
    Some((host, segs))
}

/// Resolves `reference` through the shorthand alias grammar, or reports
/// that the grammar does not apply.
pub fn parse_alias(reference: &str) -> (r: Option<GitSourceDescriptor>)
    ensures
        match alias_resolve(reference@) {
            Option::Some(d) => r matches Some(g) && desc_matches(g, d),
            Option::None => r is None,
        },
{
    let slen = reference.unicode_len();
    let i1 = match crate::text::find_char_from(reference, '/', 0) {
        Some(x) => x,
        None => {
            return None;
        },
    };
    let i2 = match crate::text::find_char_from(reference, '/', i1 + 1) {
        Some(x) => x,
        None => {
            return None;
        },
    };
    let provider = reference.substring_char(0, i1);
    let user = reference.substring_char(i1 + 1, i2);
    let rest = reference.substring_char(i2 + 1, slen);
    let low = crate::text::to_lower_ascii(provider);
    let host: &str = if crate::text::str_eq(low.as_str(), "gh")
        || crate::text::str_eq(low.as_str(), "github") {
        "github.com"
    } else if crate::text::str_eq(low.as_str(), "gl")
        || crate::text::str_eq(low.as_str(), "gitlab") {
        "gitlab.com"
    } else if crate::text::str_eq(low.as_str(), "bb")
        || crate::text::str_eq(low.as_str(), "bitbucket") {
        "bitbucket.org"
    } else {
        return None;
    };
    if user.unicode_len() == 0 || rest.unicode_len() == 0 {
        return None;
    }
    let rlen = rest.unicode_len();
    let (repo, path): (&str, &str) = match crate::text::find_char_from(rest, '/', 0) {
        Some(j) => (rest.substring_char(0, j), rest.substring_char(j + 1, rlen)),
        None => (rest, ""),
    };
    if repo.unicode_len() == 0 {
        return None;
    }
    let mut url = String::new();
    url.append("https://");
    url.append(host);
    url.append("/");
    url.append(user);
    url.append("/");
    url.append(repo);
    url.append(".git");
    proof {
        assert(url@ =~= clone_url_of(host@, user@, repo@));
        reveal_strlit("");
        assert(("")@ =~= Seq::<char>::empty());
    }
    Some(GitSourceDescriptor {
        repo_url_for_clone: url,
        git_ref: None,
        path_in_repo: path.to_owned(),
        provider_host: host.to_owned(),
        user_or_org: user.to_owned(),
    })
}

/// Resolves the host and path segments of an already parsed URL into a
/// descriptor, or reports that the URL names no supported source.
pub fn resolve_from_url_parts(host_raw: &str, segments: &Vec<String>) -> (r: Option<
    GitSourceDescriptor,
>)
    ensures
        ({
            let segs = segments@.map_values(|v: String| v@);
            match url_resolve(host_raw@, segs) {
                Option::Some(d) => r matches Some(g) && desc_matches(g, d),
                Option::None => r is None,
            }
        }),
{
    let ghost segs = segments@.map_values(|v: String| v@);
    proof {
        reveal_strlit("www.");
        reveal_strlit(".git");
        assert(forall|k: int| 0 <= k < segments@.len() ==> segs[k] == #[trigger] segments@[k]@);
    }
    let low = crate::text::to_lower_ascii(host_raw);
    let host: String = if crate::text::str_starts_with(low.as_str(), "www.") {
        let l = low.as_str().unicode_len();
        let h = low.as_str().substring_char(4, l);
        h.to_owned()
    } else {
        low
    };
    proof {
        assert(host@ == normalize_host(host_raw@));
    }
    let is_github = crate::text::str_eq(host.as_str(), "github.com");
    let is_gitlab = crate::text::str_eq(host.as_str(), "gitlab.com");
    if !is_github && !is_gitlab {
        return None;
    }
    if segments.len() < 2 {
        return None;
    }
    let user = &segments[0];
    let repo0 = &segments[1];
    let r0len = repo0.as_str().unicode_len();
    let repo: String = if crate::text::str_ends_with(repo0.as_str(), ".git") {
        proof {
            assert((".git")@.len() == 4);
        }
        let t = repo0.as_str().substring_char(0, r0len - 4);
        t.to_owned()
    } else {
        repo0.clone()
    };
    proof {
        assert(repo@ == strip_git_suffix(segs[1]));
    }
    if user.as_str().unicode_len() == 0 || repo.as_str().unicode_len() == 0 {
        return None;
    }
    let mut url = String::new();
    url.append("https://");
    url.append(host.as_str());
    url.append("/");
    url.append(user.as_str());
    url.append("/");
    url.append(repo.as_str());
    url.append(".git");
    proof {
        assert(url@ =~= clone_url_of(host@, user@, repo@));
    }
    let mut git_ref: Option<String> = None;
    let mut path: String = String::new();
    if is_github {
        if segments.len() > 3 && (crate::text::str_eq(segments[2].as_str(), "tree")
            || crate::text::str_eq(segments[2].as_str(), "blob")) {
            git_ref = Some(segments[3].clone());
            path = crate::text::join_char(segments, 4, '/');
        } else if segments.len() > 2 {
            path = crate::text::join_char(segments, 2, '/');
        }
    } else {
        if segments.len() > 4 && crate::text::str_eq(segments[2].as_str(), "-")
            && (crate::text::str_eq(segments[3].as_str(), "tree")
                || crate::text::str_eq(segments[3].as_str(), "blob")) {
            git_ref = Some(segments[4].clone());
            path = crate::text::join_char(segments, 5, '/');
        } else if segments.len() > 2 {
            path = crate::text::join_char(segments, 2, '/');
        }
    }
    Some(GitSourceDescriptor {
        repo_url_for_clone: url,
        git_ref,
        path_in_repo: path,
        provider_host: host,
        user_or_org: user.clone(),
    })
}

/// Resolves a Git reference: the shorthand alias grammar is tried
/// first; a reference it does not cover is parsed as a URL and resolved
/// by the URL grammar; anything else is an unsupported source.
pub fn parse_git_source(git_source_url: &str) -> (r: Result<GitSourceDescriptor, PkgError>)
    ensures
        ({
            match alias_resolve(git_source_url@) {
                Option::Some(d) => r matches Ok(g) && desc_matches(g, d),
                Option::None => {
                    match (url_host_of(git_source_url@), url_path_segments_of(git_source_url@)) {
                        (Option::Some(h), Option::Some(segs)) => {
                            match url_resolve(h, segs) {
                                Option::Some(d) => r matches Ok(g) && desc_matches(g, d),
                                Option::None => r matches Err(PkgError::UnsupportedSource { reference })
                                    && reference@ == git_source_url@,
                            }
                        },
                        _ => r matches Err(PkgError::UnsupportedSource { reference })
                            && reference@ == git_source_url@,
                    }
                },
            }
        }),
{
    if let Some(d) = parse_alias(git_source_url) {
        return Ok(d);
    }
    match url_host_and_segments(git_source_url) {
        Some(parts) => {
            let (host, segments) = parts;
            match resolve_from_url_parts(host.as_str(), &segments) {
                Some(d) => Ok(d),
                None => Err(PkgError::UnsupportedSource { reference: git_source_url.to_owned() }),
            }
        },
        None => Err(PkgError::UnsupportedSource { reference: git_source_url.to_owned() }),
    }
}

} // verus!
