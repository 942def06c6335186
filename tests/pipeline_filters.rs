use trotd::{
    apply_starred, clone_url, is_mostly_ascii, meets_min_stars, parse_repo_ref, provider_id,
    retain_min_stars, retain_mostly_ascii, Repo,
};

fn repo(provider: &str, name: &str, description: Option<&str>, stars: Option<u64>) -> Repo {
    Repo {
        provider: provider.to_string(),
        icon: String::new(),
        name: name.to_string(),
        language: Some("Go".to_string()),
        description: description.map(|d| d.to_string()),
        url: String::new(),
        stars_today: None,
        stars_total: stars,
        last_activity: None,
        topics: vec![],
        is_starred: false,
    }
}

fn names(repos: &[Repo]) -> Vec<String> {
    repos.iter().map(|r| r.name.clone()).collect()
}

#[test]
fn ascii_heuristic_thresholds() {
    assert!(is_mostly_ascii(&repo("github", "owner/repo", None, None)));
    // 4 of 7 characters are ASCII
    assert!(!is_mostly_ascii(&repo("github", "日本語/abc", None, None)));
    // exactly 80% of the name
    assert!(is_mostly_ascii(&repo("github", "ab/c日", None, None)));
    // 3 of 4 is under 80%
    assert!(!is_mostly_ascii(&repo("github", "a/b日", None, None)));
    // exactly 70% of the description
    assert!(is_mostly_ascii(&repo("github", "a/b", Some("abcdefg日本語"), None)));
    // 60% of the description
    assert!(!is_mostly_ascii(&repo("github", "a/b", Some("abcdef日本語漢"), None)));
    // empty texts pass
    assert!(is_mostly_ascii(&repo("github", "", Some(""), None)));
}

#[test]
fn ascii_filter_keeps_order() {
    let repos = vec![
        repo("github", "a/1", None, None),
        repo("github", "中文/项目", None, None),
        repo("github", "a/2", Some("plain"), None),
    ];
    assert_eq!(names(&retain_mostly_ascii(&repos)), vec!["a/1".to_string(), "a/2".to_string()]);
}

#[test]
fn star_threshold() {
    assert!(meets_min_stars(&repo("github", "a/b", None, Some(50)), 50));
    assert!(!meets_min_stars(&repo("github", "a/b", None, Some(49)), 50));
    assert!(!meets_min_stars(&repo("github", "a/b", None, None), 1));
    assert!(meets_min_stars(&repo("github", "a/b", None, None), 0));
    let repos = vec![
        repo("github", "a/1", None, Some(10)),
        repo("github", "a/2", None, None),
        repo("github", "a/3", None, Some(100)),
    ];
    assert_eq!(names(&retain_min_stars(&repos, 10)), vec!["a/1".to_string(), "a/3".to_string()]);
}

#[test]
fn starred_overlay_marks_github_only() {
    let mut repos = vec![
        repo("github", "o/starred", None, None),
        repo("github", "o/plain", None, None),
        repo("gitlab", "o/starred", None, None),
    ];
    repos[1].is_starred = true;
    apply_starred(&mut repos, &vec!["o/starred".to_string()]);
    assert!(repos[0].is_starred);
    assert!(!repos[1].is_starred);
    assert!(!repos[2].is_starred);
}

#[test]
fn provider_short_names() {
    assert_eq!(provider_id("gh"), "github");
    assert_eq!(provider_id("gl"), "gitlab");
    assert_eq!(provider_id("ge"), "gitea");
    assert_eq!(provider_id("github"), "github");
    assert_eq!(provider_id("other"), "other");
}

#[test]
fn repo_reference_parsing() {
    assert_eq!(parse_repo_ref("owner/repo"), Some(("owner".to_string(), "repo".to_string())));
    assert_eq!(parse_repo_ref("/repo"), Some((String::new(), "repo".to_string())));
    assert_eq!(parse_repo_ref("a/b/c"), None);
    assert_eq!(parse_repo_ref("plain"), None);
}

#[test]
fn clone_urls() {
    assert_eq!(clone_url("owner/repo"), "https://github.com/owner/repo.git");
    assert_eq!(clone_url("https://gitlab.com/a/b"), "https://gitlab.com/a/b");
    assert_eq!(clone_url("http://example.org/x"), "http://example.org/x");
}
