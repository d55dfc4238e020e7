use vstd::prelude::*;
use crate::text::{same_text, find_char, piece_from};

verus! {

/// The parts of a parsed URL that identify a package.
pub struct UrlParts {
    pub scheme: String,
    pub domain: Option<String>,
    pub path: String,
}

/// What the URL parser makes of a string: scheme, domain (if the host is a
/// domain) and path, or `None` where the string is no URL.
pub uninterp spec fn parsed_url(s: Seq<char>) -> Option<(Seq<char>, Option<Seq<char>>, Seq<char>)>;

/// Scheme, domain and path of parsed URL parts, as character sequences.
pub open spec fn parts_view(u: UrlParts) -> (Seq<char>, Option<Seq<char>>, Seq<char>) {
    (
        u.scheme@,
        match u.domain {
            Some(d) => Some(d@),
            None => None,
        },
        u.path@,
    )
}

pub open spec fn url_parts_view(p: Option<UrlParts>) -> Option<
    (Seq<char>, Option<Seq<char>>, Seq<char>),
> {
    match p {
        None => None,
        Some(u) => Some(parts_view(u)),
    }
}

/// Relies on `reqwest::Url::parse` (the `url` crate's parser) and on the
/// parsed URL's `scheme`, `domain` and `path`, which depend on the input
/// string alone.
#[verifier::external_body]
fn parse_url(s: &str) -> (r: Option<UrlParts>)
    ensures
        url_parts_view(r) == parsed_url(s@),
{
    match reqwest::Url::parse(s) {
        Ok(u) => Some(
            UrlParts {
                scheme: u.scheme().to_string(),
                domain: u.domain().map(|d| d.to_string()),
                path: u.path().to_string(),
            },
        ),
        Err(_) => None,
    }
}

/// Piece `k` of a path split at `/` (piece 0 lies before the first `/`).
pub open spec fn path_piece(p: Seq<char>, k: nat) -> Option<Seq<char>> {
    piece_from(p, '/', 0, k)
}

/// The owner and project named by a repository path: its pieces 1 and 2,
/// both non-empty.
pub open spec fn owner_and_project(path: Seq<char>) -> Option<(Seq<char>, Seq<char>)> {
    match (path_piece(path, 1), path_piece(path, 2)) {
        (Some(o), Some(r)) => if o.len() > 0 && r.len() > 0 {
            Some((o, r))
        } else {
            None
        },
        _ => None,
    }
}

/// Splits a repository path into its owner and project.
pub fn split_owner_project(path: &str) -> (r: Option<(String, String)>)
    ensures
        match r {
            Some((o, p)) => owner_and_project(path@) == Some((o@, p@)),
            None => owner_and_project(path@) is None,
        },
{
    let n = path.unicode_len();
    let e0 = find_char(path, '/', 0);
    if e0 >= n {
        assert(path_piece(path@, 1) is None);
        return None;
    }
    let e1 = find_char(path, '/', e0 + 1);
    if e1 >= n {
        assert(piece_from(path@, '/', e0 + 1, 1) is None);
        assert(path_piece(path@, 2) == piece_from(path@, '/', e0 + 1, 1));
        return None;
    }
    let e2 = find_char(path, '/', e1 + 1);
    proof {
        assert(piece_from(path@, '/', e0 + 1, 1) == piece_from(path@, '/', e1 + 1, 0));
        assert(path_piece(path@, 2) == piece_from(path@, '/', e0 + 1, 1));
        assert(path_piece(path@, 1) == piece_from(path@, '/', e0 + 1, 0));
        assert(path_piece(path@, 1) == Some(path@.subrange(e0 + 1, e1 as int)));
        assert(path_piece(path@, 2) == Some(path@.subrange(e1 + 1, e2 as int)));
    }
    if e1 == e0 + 1 || e2 == e1 + 1 {
        return None;
    }
    let owner = path.substring_char(e0 + 1, e1).to_string();
    let project = path.substring_char(e1 + 1, e2).to_string();
    assert(owner@ == path@.subrange(e0 + 1, e1 as int));
    Some((owner, project))
}


/// The two kinds of hosts that packages are scored from.
#[derive(Clone, Copy, Debug, PartialEq, Eq, Structural)]
pub enum PackageKind {
    /// A code forge: github.com.
    CodeForge,
    /// A package registry: www.npmjs.com.
    Registry,
}

pub open spec fn kind_of_domain(domain: Option<Seq<char>>) -> Option<PackageKind> {
    if domain == Some("github.com"@) {
        Some(PackageKind::CodeForge)
    } else if domain == Some("www.npmjs.com"@) {
        Some(PackageKind::Registry)
    } else {
        None
    }
}

/// The kind of host a package URL points to; `None` for a string that is no
/// URL or for any other host.
pub open spec fn package_kind_spec(url: Seq<char>) -> Option<PackageKind> {
    match parsed_url(url) {
        Some((_, domain, _)) => kind_of_domain(domain),
        None => None,
    }
}

/// Tells which kind of host parsed URL parts point to.
pub fn kind_of_parts(parts: &UrlParts) -> (r: Option<PackageKind>)
    ensures
        r == kind_of_domain(parts_view(*parts).1),
{
    match &parts.domain {
        Some(d) => if same_text(d.as_str(), "github.com") {
            Some(PackageKind::CodeForge)
        } else if same_text(d.as_str(), "www.npmjs.com") {
            Some(PackageKind::Registry)
        } else {
            None
        },
        None => None,
    }
}

/// Tells which kind of host a package URL points to.
pub fn package_kind(url: &str) -> (r: Option<PackageKind>)
    ensures
        r == package_kind_spec(url@),
{
    match parse_url(url) {
        None => None,
        Some(parts) => kind_of_parts(&parts),
    }
}

/// Whether a parsed scheme is one that a repository URL may have.
pub open spec fn is_web_scheme(scheme: Seq<char>) -> bool {
    scheme == "https"@ || scheme == "http"@
}

/// Owner and project that parsed URL parts name on github.com: the scheme
/// is http or https, the domain github.com, and the path names both.
pub open spec fn location_of_parts(p: (Seq<char>, Option<Seq<char>>, Seq<char>)) -> Option<
    (Seq<char>, Seq<char>),
> {
    if p.1 == Some("github.com"@) && is_web_scheme(p.0) {
        owner_and_project(p.2)
    } else {
        None
    }
}

/// Owner and project of a github.com repository URL.
pub open spec fn github_location(url: Seq<char>) -> Option<(Seq<char>, Seq<char>)> {
    match parsed_url(url) {
        Some(p) => location_of_parts(p),
        None => None,
    }
}

/// Owner and project that parsed URL parts name on github.com.
pub fn github_location_of(parts: &UrlParts) -> (r: Option<(String, String)>)
    ensures
        match r {
            Some((o, p)) => location_of_parts(parts_view(*parts)) == Some((o@, p@)),
            None => location_of_parts(parts_view(*parts)) is None,
        },
{
    let on_github = match &parts.domain {
        Some(d) => same_text(d.as_str(), "github.com"),
        None => false,
    };
    if !on_github {
        return None;
    }
    let web = same_text(parts.scheme.as_str(), "https") || same_text(
        parts.scheme.as_str(),
        "http",
    );
    if !web {
        return None;
    }
    split_owner_project(parts.path.as_str())
}

/// A repository on github.com, resolved from its URL.
#[derive(Debug)]
pub struct Github {
    pub owner: String,
    pub repo: String,
    pub link: String,
}

impl Github {
    /// Resolves a github.com repository URL; `None` for any other string.
    pub fn with_url(url: &str) -> (r: Option<Github>)
        ensures
            match r {
                Some(g) => github_location(url@) == Some((g.owner@, g.repo@)) && g.link@ == url@,
                None => github_location(url@) is None,
            },
    {
        let parts = match parse_url(url) {
            Some(p) => p,
            None => {
                return None;
            },
        };
        match github_location_of(&parts) {
            Some((owner, repo)) => Some(Github { owner, repo, link: url.to_string() }),
            None => None,
        }
    }

    /// The owner of the repository.
    pub fn get_name(&self) -> (r: String)
        ensures
            r@ == self.owner@,
    {
        self.owner.clone()
    }
}

} // verus!
