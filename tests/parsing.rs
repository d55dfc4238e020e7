use trust_score::identifier::{
    github_location_of, kind_of_parts, package_kind, split_owner_project, Github, PackageKind,
    UrlParts,
};
use trust_score::pagination::{page_count_from_link, pages_without_link, parse_u32};
use trust_score::text::{find_text, same_text};

#[test]
fn resolves_github_urls() {
    let g = Github::with_url("https://github.com/nodeca/js-yaml").unwrap();
    assert_eq!(g.owner, "nodeca");
    assert_eq!(g.repo, "js-yaml");
    assert_eq!(g.link, "https://github.com/nodeca/js-yaml");
    assert_eq!(g.get_name(), "nodeca");
    let g = Github::with_url("http://github.com/owner/project/tree/main").unwrap();
    assert_eq!(g.owner, "owner");
    assert_eq!(g.repo, "project");
}

#[test]
fn rejects_other_identifiers() {
    assert!(Github::with_url("not a url").is_none());
    assert!(Github::with_url("https://gitlab.com/owner/project").is_none());
    assert!(Github::with_url("ftp://github.com/owner/project").is_none());
    assert!(Github::with_url("https://github.com/owner").is_none());
    assert!(Github::with_url("https://github.com/owner/").is_none());
    assert!(Github::with_url("https://github.com/").is_none());
}

#[test]
fn tells_package_kinds_apart() {
    assert_eq!(package_kind("https://github.com/a/b"), Some(PackageKind::CodeForge));
    assert_eq!(package_kind("https://www.npmjs.com/package/x"), Some(PackageKind::Registry));
    assert_eq!(package_kind("https://example.org/a"), None);
    assert_eq!(package_kind("https://127.0.0.1/a"), None);
    assert_eq!(package_kind("nonsense"), None);
}

#[test]
fn splits_repository_paths() {
    assert_eq!(
        split_owner_project("/a/b"),
        Some(("a".to_string(), "b".to_string()))
    );
    assert_eq!(
        split_owner_project("/a/b/c/d"),
        Some(("a".to_string(), "b".to_string()))
    );
    assert_eq!(split_owner_project("/a"), None);
    assert_eq!(split_owner_project("/a//b"), None);
    assert_eq!(split_owner_project(""), None);
}

#[test]
fn reads_page_counts() {
    let link = "<https://api.github.com/repositories/1/issues?state=all&per_page=1&page=2>; rel=\"next\", <https://api.github.com/repositories/1/issues?state=all&per_page=1&page=1734>; rel=\"last\"";
    assert_eq!(page_count_from_link(link), Some(1734));
    assert_eq!(page_count_from_link("<x&page=2>; rel=\"next\""), None);
    assert_eq!(page_count_from_link("<a>, <b?page=3>"), None);
    assert_eq!(page_count_from_link("<a>, <b&page=>"), None);
    assert_eq!(page_count_from_link("<a>, <b&page=12"), None);
}

#[test]
fn parses_numbers_like_std() {
    for s in ["0", "42", "+7", "4294967295", "", "+", "-1", "4294967296", "12a", "007"] {
        assert_eq!(parse_u32(s), s.parse::<u32>().ok(), "{}", s);
    }
}

#[test]
fn compares_and_searches_text() {
    assert!(same_text("abc", "abc"));
    assert!(!same_text("abc", "abd"));
    assert!(!same_text("abc", "ab"));
    assert_eq!(find_text("a&page=3", "&page="), Some(1));
    assert_eq!(find_text("abc", "x"), None);
    assert_eq!(find_text("abc", ""), Some(0));
}

fn parts(scheme: &str, domain: Option<&str>, path: &str) -> UrlParts {
    UrlParts {
        scheme: scheme.to_string(),
        domain: domain.map(|d| d.to_string()),
        path: path.to_string(),
    }
}

#[test]
fn locates_repositories_in_url_parts() {
    let found = github_location_of(&parts("https", Some("github.com"), "/owner/project/issues"));
    assert_eq!(found, Some(("owner".to_string(), "project".to_string())));
    let found = github_location_of(&parts("http", Some("github.com"), "/o/p"));
    assert_eq!(found, Some(("o".to_string(), "p".to_string())));
    assert_eq!(github_location_of(&parts("ftp", Some("github.com"), "/o/p")), None);
    assert_eq!(github_location_of(&parts("https", Some("gitlab.com"), "/o/p")), None);
    assert_eq!(github_location_of(&parts("https", None, "/o/p")), None);
    assert_eq!(github_location_of(&parts("https", Some("github.com"), "/o")), None);
}

#[test]
fn tells_kinds_of_url_parts() {
    assert_eq!(kind_of_parts(&parts("https", Some("github.com"), "/")), Some(PackageKind::CodeForge));
    assert_eq!(
        kind_of_parts(&parts("https", Some("www.npmjs.com"), "/package/x")),
        Some(PackageKind::Registry)
    );
    assert_eq!(kind_of_parts(&parts("https", Some("npmjs.com"), "/")), None);
    assert_eq!(kind_of_parts(&parts("https", None, "/")), None);
}

#[test]
fn counts_pages_of_unpaged_listings() {
    assert_eq!(pages_without_link(0), 0);
    assert_eq!(pages_without_link(1), 1);
    assert_eq!(pages_without_link(30), 1);
}
