//! Forge (code hosting) data: repositories, pull requests and the backend
//! interface that fetches them.

use vstd::prelude::*;
use crate::error::TuicrError;
use crate::text::{push_char, str_eq};

verus! {

/// A point in time in UTC, as seconds since the Unix epoch and the
/// nanoseconds within that second.
#[derive(Debug, Clone, Copy, PartialEq, Eq)]
pub struct UtcTimestamp {
    pub seconds: i64,
    pub nanoseconds: u32,
}

/// Kind of code-hosting service.
#[derive(Debug, Clone, Copy, PartialEq, Eq)]
pub enum ForgeKind {
    GitHub,
}

/// A repository on a forge.
#[derive(Debug, Clone, PartialEq, Eq)]
pub struct ForgeRepository {
    pub kind: ForgeKind,
    pub host: String,
    pub owner: String,
    pub name: String,
}

/// `owner/name`.
pub open spec fn slug_spec(owner: Seq<char>, name: Seq<char>) -> Seq<char> {
    owner + seq!['/'] + name
}

/// The slug alone on `github.com`, and `host/slug` on any other host.
pub open spec fn display_name_spec(host: Seq<char>, owner: Seq<char>, name: Seq<char>) -> Seq<
    char,
> {
    if host == "github.com"@ {
        slug_spec(owner, name)
    } else {
        host + seq!['/'] + slug_spec(owner, name)
    }
}

/// How a repository is named: `owner/name` exactly when the host is
/// `github.com` (any other host, however alike, is shown), and
/// `host/owner/name` on every other host. The two forms never coincide.
pub proof fn law_display_name(host: Seq<char>, owner: Seq<char>, name: Seq<char>)
    ensures
        host == "github.com"@ ==> display_name_spec(host, owner, name) == owner + seq!['/']
            + name,
        host != "github.com"@ ==> display_name_spec(host, owner, name) == host + seq!['/']
            + owner + seq!['/'] + name,
        (display_name_spec(host, owner, name) == owner + seq!['/'] + name) <==> host
            == "github.com"@,
{
    if host != "github.com"@ {
        let shown = host + seq!['/'] + owner + seq!['/'] + name;
        assert(display_name_spec(host, owner, name) =~= shown);
        assert(shown.len() > (owner + seq!['/'] + name).len());
    }
}

impl ForgeRepository {
    /// A GitHub repository on `host`.
    pub fn github(host: &str, owner: &str, name: &str) -> (r: Self)
        ensures
            r.kind == ForgeKind::GitHub,
            r.host@ == host@,
            r.owner@ == owner@,
            r.name@ == name@,
    {
        Self {
            kind: ForgeKind::GitHub,
            host: host.to_owned(),
            owner: owner.to_owned(),
            name: name.to_owned(),
        }
    }

    /// `owner/name`.
    pub fn slug(&self) -> (s: String)
        ensures
            s@ == slug_spec(self.owner@, self.name@),
    {
        let mut s = self.owner.clone();
        push_char(&mut s, '/');
        s.append(self.name.as_str());
        s
    }

    /// The name shown for the repository: its slug on `github.com`, and
    /// `host/owner/name` elsewhere.
    pub fn display_name(&self) -> (s: String)
        ensures
            s@ == display_name_spec(self.host@, self.owner@, self.name@),
    {
        if str_eq(self.host.as_str(), "github.com") {
            self.slug()
        } else {
            let mut s = self.host.clone();
            push_char(&mut s, '/');
            let slug = self.slug();
            s.append(slug.as_str());
            s
        }
    }
}

/// A pull request to open: its number, the repository when it was given,
/// and the text it was given as.
#[derive(Debug, Clone, PartialEq, Eq)]
pub struct PullRequestTarget {
    pub repository: Option<ForgeRepository>,
    pub number: u64,
    pub original: String,
}

impl PullRequestTarget {
    /// A pull request given by number alone.
    pub fn number(number: u64, original: &str) -> (t: Self)
        ensures
            t.repository is None,
            t.number == number,
            t.original@ == original@,
    {
        Self { repository: None, number, original: original.to_owned() }
    }

    /// A pull request given by number in a repository.
    pub fn with_repository(repository: ForgeRepository, number: u64, original: &str) -> (t: Self)
        ensures
            t.repository == Some(repository),
            t.number == number,
            t.original@ == original@,
    {
        Self { repository: Some(repository), number, original: original.to_owned() }
    }
}

/// A request for one page of a repository's pull requests.
#[derive(Debug, Clone, PartialEq, Eq)]
pub struct PullRequestListQuery {
    pub repository: ForgeRepository,
    /// How many pull requests earlier pages gave.
    pub already_loaded: usize,
    pub page_size: usize,
}

impl PullRequestListQuery {
    /// The query for the first page.
    pub fn first_page(repository: ForgeRepository, page_size: usize) -> (q: Self)
        ensures
            q.repository == repository,
            q.already_loaded == 0,
            q.page_size == page_size,
    {
        Self { repository, already_loaded: 0, page_size }
    }
}

/// A pull request as listed.
#[derive(Debug, Clone, PartialEq, Eq)]
pub struct PullRequestSummary {
    pub repository: ForgeRepository,
    pub number: u64,
    pub title: String,
    pub author: Option<String>,
    pub head_ref_name: String,
    pub base_ref_name: String,
    pub updated_at: Option<UtcTimestamp>,
    pub url: String,
    pub state: String,
    pub is_draft: bool,
}

/// One page of pull requests.
#[derive(Debug, Clone, PartialEq, Eq)]
pub struct PagedPullRequests {
    pub pull_requests: Vec<PullRequestSummary>,
    pub has_more: bool,
    pub total_loaded: usize,
}

/// A pull request in full.
#[derive(Debug, Clone, PartialEq, Eq)]
pub struct PullRequestDetails {
    pub repository: ForgeRepository,
    pub number: u64,
    pub title: String,
    pub url: String,
    pub state: String,
    pub is_draft: bool,
    pub author: Option<String>,
    pub head_ref_name: String,
    pub base_ref_name: String,
    pub head_sha: String,
    pub base_sha: String,
    pub body: String,
    pub updated_at: Option<UtcTimestamp>,
    pub closed: bool,
    pub merged_at: Option<UtcTimestamp>,
}

impl PullRequestDetails {
    /// A closed or merged pull request is read only.
    pub fn is_read_only(&self) -> (r: bool)
        ensures
            r == (self.closed || self.merged_at is Some),
    {
        self.closed || self.merged_at.is_some()
    }
}

/// A source of pull requests.
pub trait ForgeBackend {
    fn list_pull_requests(&self, query: PullRequestListQuery) -> Result<
        PagedPullRequests,
        TuicrError,
    >;

    fn get_pull_request(&self, target: PullRequestTarget) -> Result<
        PullRequestDetails,
        TuicrError,
    >;

    fn get_pull_request_diff(&self, pr: &PullRequestDetails) -> Result<String, TuicrError>;
}

} // verus!
