//! The account snapshot, as the GraphQL service reports it.

use vstd::prelude::*;

verus! {

/// A GraphQL response: data, or named errors.
pub struct GraphQLResponse<T> {
    pub data: Option<T>,
    pub errors: Option<Vec<GraphQLError>>,
}

/// One error named by the service.
pub struct GraphQLError {
    pub message: String,
}

/// Continuation state of a paginated connection.
#[derive(Clone)]
pub struct PageInfo {
    pub has_next_page: bool,
    pub end_cursor: Option<String>,
}

pub struct UserData {
    pub viewer: Option<User>,
}

/// The authenticated account with its repositories and merged pull requests.
pub struct User {
    pub login: String,
    pub contributions_collection: ContributionsCollection,
    pub repositories: RepositoryConnection,
    pub pull_requests: PullRequestConnection,
    pub issues: IssueConnection,
    pub merged_pull_requests: MergedPullRequestConnection,
}

pub struct ContributionsCollection {
    pub total_commit_contributions: u32,
    pub restricted_contributions_count: u32,
}

pub struct RepositoryConnection {
    pub nodes: Vec<Repository>,
    pub page_info: PageInfo,
}

/// A repository owned by the account.
pub struct Repository {
    pub stargazer_count: u32,
    pub fork_count: u32,
    pub is_fork: bool,
    pub languages: Option<LanguageConnection>,
}

pub struct LanguageConnection {
    pub edges: Vec<LanguageEdge>,
}

/// Bytes of one language in one repository.
pub struct LanguageEdge {
    pub size: u64,
    pub node: Language,
}

pub struct Language {
    pub name: String,
    pub color: Option<String>,
}

pub struct PullRequestConnection {
    pub total_count: u32,
}

pub struct IssueConnection {
    pub total_count: u32,
}

/// Merged pull requests; `total_count` is what the service reported and may
/// differ from the number of nodes gathered.
pub struct MergedPullRequestConnection {
    pub total_count: u32,
    pub nodes: Vec<MergedPullRequest>,
    pub page_info: PageInfo,
}

pub struct MergedPullRequest {
    pub repository: PullRequestRepo,
}

/// The repository a pull request was merged into.
pub struct PullRequestRepo {
    pub name: String,
    pub owner: RepoOwner,
    pub stargazer_count: u32,
}

pub struct RepoOwner {
    pub login: String,
    pub avatar_url: String,
}

} // verus!
