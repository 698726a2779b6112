use tuicr::forge::{
    ForgeKind, ForgeRepository, PullRequestDetails, PullRequestListQuery, PullRequestTarget,
    UtcTimestamp,
};

fn details(closed: bool, merged_at: Option<UtcTimestamp>) -> PullRequestDetails {
    PullRequestDetails {
        repository: ForgeRepository::github("github.com", "agavra", "tuicr"),
        number: 7,
        title: "Add feature".to_string(),
        url: "https://github.com/agavra/tuicr/pull/7".to_string(),
        state: "OPEN".to_string(),
        is_draft: false,
        author: Some("octocat".to_string()),
        head_ref_name: "feature".to_string(),
        base_ref_name: "main".to_string(),
        head_sha: "abc".to_string(),
        base_sha: "def".to_string(),
        body: String::new(),
        updated_at: None,
        closed,
        merged_at,
    }
}

#[test]
fn github_repository_fields() {
    let repo = ForgeRepository::github("github.com", "owner", "repo");
    assert_eq!(repo.kind, ForgeKind::GitHub);
    assert_eq!(repo.host, "github.com");
    assert_eq!(repo.owner, "owner");
    assert_eq!(repo.name, "repo");
}

#[test]
fn slug_is_owner_and_name() {
    let repo = ForgeRepository::github("github.com", "owner", "repo");
    assert_eq!(repo.slug(), "owner/repo");
}

#[test]
fn display_name_hides_github_host() {
    let repo = ForgeRepository::github("github.com", "owner", "repo");
    assert_eq!(repo.display_name(), "owner/repo");
    let enterprise = ForgeRepository::github("git.example.com", "team", "service");
    assert_eq!(enterprise.display_name(), "git.example.com/team/service");
    let upper = ForgeRepository::github("GitHub.com", "o", "n");
    assert_eq!(upper.display_name(), "GitHub.com/o/n");
}

#[test]
fn pull_request_targets() {
    let bare = PullRequestTarget::number(42, "#42");
    assert_eq!(bare.repository, None);
    assert_eq!(bare.number, 42);
    assert_eq!(bare.original, "#42");
    let repo = ForgeRepository::github("github.com", "owner", "repo");
    let full = PullRequestTarget::with_repository(repo.clone(), 9, "owner/repo#9");
    assert_eq!(full.repository, Some(repo));
    assert_eq!(full.number, 9);
    assert_eq!(full.original, "owner/repo#9");
}

#[test]
fn first_page_starts_at_zero() {
    let repo = ForgeRepository::github("github.com", "owner", "repo");
    let query = PullRequestListQuery::first_page(repo.clone(), 30);
    assert_eq!(query.repository, repo);
    assert_eq!(query.already_loaded, 0);
    assert_eq!(query.page_size, 30);
}

#[test]
fn closed_or_merged_is_read_only() {
    let merged = Some(UtcTimestamp { seconds: 1_700_000_000, nanoseconds: 0 });
    assert!(!details(false, None).is_read_only());
    assert!(details(true, None).is_read_only());
    assert!(details(false, merged).is_read_only());
    assert!(details(true, merged).is_read_only());
}
