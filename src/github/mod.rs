//! The account snapshot and the decisions taken while gathering it.

pub mod query;
pub mod types;

pub use types::{
    ContributionsCollection, GraphQLError, GraphQLResponse, IssueConnection, Language,
    LanguageConnection, LanguageEdge, MergedPullRequest, MergedPullRequestConnection, PageInfo,
    PullRequestConnection, PullRequestRepo, RepoOwner, Repository, RepositoryConnection, User,
    UserData,
};

use crate::github::query::{build_merged_pull_requests_query, build_repositories_query};
use crate::github::query::{merged_pull_requests_query, repositories_query};
use vstd::prelude::*;
use vstd::string::*;

verus! {

/// Why gathering the snapshot failed; each ends the run.
pub enum FetchError {
    /// The request or its response failed.
    Transport(String),
    /// The service named errors instead of data.
    Protocol(String),
    /// The response carries no usable data.
    MissingData(String),
    /// A next page was announced without a cursor.
    Pagination,
}

/// Text of the pagination error.
pub const MISSING_CURSOR: &'static str = "Missing cursor for next page";

/// Messages of the errors, separated by ", ".
pub open spec fn joined(errors: Seq<GraphQLError>) -> Seq<char>
    decreases errors.len(),
{
    if errors.len() == 0 {
        Seq::empty()
    } else if errors.len() == 1 {
        errors[0].message@
    } else {
        joined(errors.drop_last()) + ", "@ + errors.last().message@
    }
}

impl FetchError {
    /// Human-readable description.
    pub open spec fn text(self) -> Seq<char> {
        match self {
            FetchError::Transport(m) => m@,
            FetchError::Protocol(m) => m@,
            FetchError::MissingData(m) => m@,
            FetchError::Pagination => MISSING_CURSOR@,
        }
    }

    /// Human-readable description.
    pub fn message(&self) -> (r: String)
        ensures
            r@ == self.text(),
    {
        match self {
            FetchError::Transport(m) => m.clone(),
            FetchError::Protocol(m) => m.clone(),
            FetchError::MissingData(m) => m.clone(),
            FetchError::Pagination => String::from_str(MISSING_CURSOR),
        }
    }
}

/// Joins the messages of `errors` with ", ".
fn join_messages(errors: &Vec<GraphQLError>) -> (r: String)
    ensures
        r@ == joined(errors@),
{
    let mut out = String::new();
    let mut i: usize = 0;
    while i < errors.len()
        invariant
            i <= errors.len(),
            out@ == joined(errors@.take(i as int)),
        decreases errors.len() - i,
    {
        proof {
            assert(errors@.take(i + 1).drop_last() =~= errors@.take(i as int));
        }
        if i > 0 {
            out.append(", ");
        }
        out.append(errors[i].message.as_str());
        i += 1;
    }
    assert(errors@.take(i as int) =~= errors@);
    out
}

impl<T> GraphQLResponse<T> {
    /// The data of the response: a protocol error where the service named
    /// errors, with their messages; a missing-data error where there is none.
    pub fn into_data(self) -> (r: Result<T, FetchError>)
        ensures
            self.errors matches Some(errors) ==> (r matches Err(FetchError::Protocol(m)) && m@
                == "GraphQL errors: "@ + joined(errors@)),
            self.errors is None && self.data is Some ==> r == Ok::<T, FetchError>(self.data->0),
            self.errors is None && self.data is None ==> (r matches Err(
                FetchError::MissingData(m),
            ) && m@ == "No data in response"@),
    {
        match self.errors {
            Some(errors) => {
                let mut message = String::from_str("GraphQL errors: ");
                let list = join_messages(&errors);
                message.append(list.as_str());
                Err(FetchError::Protocol(message))
            },
            None => present(self.data, "No data in response"),
        }
    }
}

/// The value, or a missing-data error saying `missing`.
pub fn present<T>(value: Option<T>, missing: &str) -> (r: Result<T, FetchError>)
    ensures
        value matches Some(v) ==> r == Ok::<T, FetchError>(v),
        value is None ==> (r matches Err(FetchError::MissingData(m)) && m@ == missing@),
{
    match value {
        Some(v) => Ok(v),
        None => Err(FetchError::MissingData(String::from_str(missing))),
    }
}

/// A paginated connection being gathered: the items so far, in page order,
/// and where the last page left off.
pub struct Pager<T> {
    pub items: Vec<T>,
    pub page_info: PageInfo,
}

/// What follows a page: the cursor of the next one, none when the connection
/// is complete, or a pagination error when a next page comes without a cursor.
pub open spec fn next_after(page_info: PageInfo, r: Result<Option<String>, FetchError>) -> bool {
    if !page_info.has_next_page {
        r matches Ok(None)
    } else {
        match page_info.end_cursor {
            Some(c) => r matches Ok(Some(n)) && n@ == c@,
            None => r matches Err(FetchError::Pagination),
        }
    }
}

impl<T> Pager<T> {
    /// Starts from the first page.
    pub fn new(items: Vec<T>, page_info: PageInfo) -> (r: Self)
        ensures
            r.items@ == items@,
            r.page_info == page_info,
    {
        Pager { items, page_info }
    }

    /// The cursor of the next page to request.
    pub fn next_cursor(&self) -> (r: Result<Option<String>, FetchError>)
        ensures
            next_after(self.page_info, r),
    {
        if !self.page_info.has_next_page {
            return Ok(None);
        }
        match &self.page_info.end_cursor {
            Some(c) => Ok(Some(c.clone())),
            None => Err(FetchError::Pagination),
        }
    }

    /// Appends the items of the next page and takes over its page state.
    pub fn absorb(&mut self, items: Vec<T>, page_info: PageInfo)
        ensures
            final(self).items@ == old(self).items@ + items@,
            final(self).page_info == page_info,
    {
        let mut items = items;
        self.items.append(&mut items);
        self.page_info = page_info;
    }
}

impl Pager<Repository> {
    /// The query for the next repositories page, if any.
    pub fn next_query(&self, include_private: bool) -> (r: Result<Option<String>, FetchError>)
        ensures
            match self.page_info.end_cursor {
                Some(c) if self.page_info.has_next_page => r matches Ok(Some(q)) && q@
                    == repositories_query(c@, include_private),
                _ => next_after(self.page_info, r),
            },
    {
        match self.next_cursor() {
            Ok(Some(cursor)) => Ok(Some(build_repositories_query(cursor.as_str(), include_private))),
            Ok(None) => Ok(None),
            Err(e) => Err(e),
        }
    }
}

impl Pager<MergedPullRequest> {
    /// The query for the next merged pull requests page, if any.
    pub fn next_query(&self) -> (r: Result<Option<String>, FetchError>)
        ensures
            match self.page_info.end_cursor {
                Some(c) if self.page_info.has_next_page => r matches Ok(Some(q)) && q@
                    == merged_pull_requests_query(c@),
                _ => next_after(self.page_info, r),
            },
    {
        match self.next_cursor() {
            Ok(Some(cursor)) => Ok(Some(build_merged_pull_requests_query(cursor.as_str()))),
            Ok(None) => Ok(None),
            Err(e) => Err(e),
        }
    }
}

/// A connection with nothing left to fetch.
pub open spec fn complete(page_info: PageInfo) -> bool {
    !page_info.has_next_page && page_info.end_cursor is None
}

/// The snapshot: the scalars of the first page with every repository and
/// merged pull request gathered. The merged pull request total stays the one
/// the first page reported.
pub fn assemble_snapshot(
    first: User,
    repositories: Vec<Repository>,
    merged_pull_requests: Vec<MergedPullRequest>,
) -> (r: UserData)
    ensures
        r.viewer matches Some(user) && {
            &&& user.login == first.login
            &&& user.contributions_collection == first.contributions_collection
            &&& user.repositories.nodes@ == repositories@
            &&& complete(user.repositories.page_info)
            &&& user.pull_requests == first.pull_requests
            &&& user.issues == first.issues
            &&& user.merged_pull_requests.total_count == first.merged_pull_requests.total_count
            &&& user.merged_pull_requests.nodes@ == merged_pull_requests@
            &&& complete(user.merged_pull_requests.page_info)
        },
{
    UserData {
        viewer: Some(
            User {
                login: first.login,
                contributions_collection: first.contributions_collection,
                repositories: RepositoryConnection {
                    nodes: repositories,
                    page_info: PageInfo { has_next_page: false, end_cursor: None },
                },
                pull_requests: first.pull_requests,
                issues: first.issues,
                merged_pull_requests: MergedPullRequestConnection {
                    total_count: first.merged_pull_requests.total_count,
                    nodes: merged_pull_requests,
                    page_info: PageInfo { has_next_page: false, end_cursor: None },
                },
            },
        ),
    }
}

} // verus!
