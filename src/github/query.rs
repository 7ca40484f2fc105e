//! The GraphQL queries: the first one, and the two page queries.

use crate::svg::push_decimal;
use crate::tiles::{num, push};
use vstd::prelude::*;
use vstd::string::*;

verus! {

/// Items per page of a connection.
pub const MAX_PER_PAGE: u128 = 100;

/// Languages asked for per repository.
pub const MAX_LANGUAGES_PER_REPO: u128 = 100;

/// Size of the avatar images, in pixels.
pub const AVATAR_SIZE: u128 = 32;

/// Restricts repositories to those the account owns.
pub const OWNER_FILTER: &'static str = ", ownerAffiliations: OWNER";

/// Restricts repositories to public ones.
pub const PUBLIC_ONLY: &'static str = ", privacy: PUBLIC";

/// Continues a connection after a cursor; the cursor and a closing quote follow.
pub const AFTER_CURSOR: &'static str = ", after: \"";

/// Closes the cursor.
pub const CURSOR_END: &'static str = "\"";

/// Start of the first query, up to the size of the repositories page.
pub const INITIAL_OPEN: &'static str = "\n        query {\n            viewer {\n                login\n                contributionsCollection {\n                    totalCommitContributions\n                    restrictedContributionsCount\n                }\n                repositories(first: ";

/// Ordering and fields of a repository page, up to the number of languages (first query).
pub const REPOSITORY_FIELDS: &'static str = ", orderBy: {field: STARGAZERS, direction: DESC}) {\n                    nodes {\n                        stargazerCount\n                        forkCount\n                        isFork\n                        languages(first: ";

/// Language and page fields, counters, and the merged pull requests up to their page size (first query).
pub const INITIAL_MIDDLE: &'static str = ", orderBy: {field: SIZE, direction: DESC}) {\n                            edges {\n                                size\n                                node {\n                                    name\n                                    color\n                                }\n                            }\n                        }\n                    }\n                    pageInfo {\n                        hasNextPage\n                        endCursor\n                    }\n                }\n                pullRequests(first: 1) {\n                    totalCount\n                }\n                issues(first: 1) {\n                    totalCount\n                }\n                mergedPullRequests: pullRequests(first: ";

/// Ordering and fields of a merged pull request page, up to the avatar size (first query).
pub const MERGED_FIELDS: &'static str = ", states: MERGED, orderBy: {field: CREATED_AT, direction: DESC}) {\n                    totalCount\n                    nodes {\n                        repository {\n                            name\n                            owner {\n                                login\n                                avatarUrl(size: ";

/// End of the first query.
pub const INITIAL_CLOSE: &'static str = ")\n                            }\n                            stargazerCount\n                        }\n                    }\n                    pageInfo {\n                        hasNextPage\n                        endCursor\n                    }\n                }\n            }\n        }\n    ";

/// Start of a repositories page query, up to the page size.
pub const REPOSITORY_PAGE_OPEN: &'static str = "\n            query {\n                viewer {\n                    repositories(first: ";

/// Ordering and fields of a repositories page, up to the number of languages.
pub const REPOSITORY_PAGE_FIELDS: &'static str = ", orderBy: {field: STARGAZERS, direction: DESC}) {\n                        nodes {\n                            stargazerCount\n                            forkCount\n                            isFork\n                            languages(first: ";

/// Language and page fields, and the end of a repositories page query.
pub const REPOSITORY_PAGE_CLOSE: &'static str = ", orderBy: {field: SIZE, direction: DESC}) {\n                                edges {\n                                    size\n                                    node {\n                                        name\n                                        color\n                                    }\n                                }\n                            }\n                        }\n                        pageInfo {\n                            hasNextPage\n                            endCursor\n                        }\n                    }\n                }\n            }\n        ";

/// Start of a merged pull requests page query, up to the page size.
pub const MERGED_PAGE_OPEN: &'static str = "\n            query {\n                viewer {\n                    mergedPullRequests: pullRequests(first: ";

/// Ordering and fields of a merged pull requests page, up to the avatar size.
pub const MERGED_PAGE_FIELDS: &'static str = ", states: MERGED, orderBy: {field: CREATED_AT, direction: DESC}) {\n                        nodes {\n                            repository {\n                                name\n                                owner {\n                                    login\n                                    avatarUrl(size: ";

/// End of a merged pull requests page query.
pub const MERGED_PAGE_CLOSE: &'static str = ")\n                                }\n                                stargazerCount\n                            }\n                        }\n                        pageInfo {\n                            hasNextPage\n                            endCursor\n                        }\n                    }\n                }\n            }\n        ";

/// The privacy clause: none when private repositories are included.
pub open spec fn privacy_clause(include_private: bool) -> Seq<char> {
    if include_private {
        Seq::empty()
    } else {
        PUBLIC_ONLY@
    }
}

/// The repository filter: owned repositories, public ones only unless
/// private ones are included.
pub open spec fn affiliation(include_private: bool) -> Seq<char> {
    OWNER_FILTER@ + privacy_clause(include_private)
}

/// The first query: account, counters, and the first page of repositories
/// and of merged pull requests.
pub open spec fn initial_query(include_private: bool) -> Seq<char> {
    INITIAL_OPEN@ + num(MAX_PER_PAGE as int) + affiliation(include_private) + REPOSITORY_FIELDS@
        + num(MAX_LANGUAGES_PER_REPO as int) + INITIAL_MIDDLE@ + num(MAX_PER_PAGE as int)
        + MERGED_FIELDS@ + num(AVATAR_SIZE as int) + INITIAL_CLOSE@
}

/// The query for the repositories page after `cursor`.
pub open spec fn repositories_query(cursor: Seq<char>, include_private: bool) -> Seq<char> {
    REPOSITORY_PAGE_OPEN@ + num(MAX_PER_PAGE as int) + AFTER_CURSOR@ + cursor + CURSOR_END@
        + affiliation(include_private) + REPOSITORY_PAGE_FIELDS@ + num(MAX_LANGUAGES_PER_REPO as int)
        + REPOSITORY_PAGE_CLOSE@
}

/// The query for the merged pull requests page after `cursor`.
pub open spec fn merged_pull_requests_query(cursor: Seq<char>) -> Seq<char> {
    MERGED_PAGE_OPEN@ + num(MAX_PER_PAGE as int) + AFTER_CURSOR@ + cursor + CURSOR_END@
        + MERGED_PAGE_FIELDS@ + num(AVATAR_SIZE as int) + MERGED_PAGE_CLOSE@
}

/// Whether `text` holds `part`.
pub open spec fn holds(text: Seq<char>, part: Seq<char>) -> bool {
    exists|i: int|
        0 <= i <= text.len() - part.len() && #[trigger] text.subrange(i, i + part.len()) == part
}

fn push_affiliation(out: &mut String, include_private: bool)
    ensures
        final(out)@ == old(out)@ + affiliation(include_private),
{
    let ghost start = out@;
    push(out, OWNER_FILTER);
    if !include_private {
        push(out, PUBLIC_ONLY);
    }
    assert(out@ =~= start + affiliation(include_private));
}

/// Builds the first query.
pub fn build_initial_query(include_private: bool) -> (r: String)
    ensures
        r@ == initial_query(include_private),
{
    let mut out = String::new();
    push(&mut out, INITIAL_OPEN);
    push_decimal(&mut out, MAX_PER_PAGE);
    push_affiliation(&mut out, include_private);
    push(&mut out, REPOSITORY_FIELDS);
    push_decimal(&mut out, MAX_LANGUAGES_PER_REPO);
    push(&mut out, INITIAL_MIDDLE);
    push_decimal(&mut out, MAX_PER_PAGE);
    push(&mut out, MERGED_FIELDS);
    push_decimal(&mut out, AVATAR_SIZE);
    push(&mut out, INITIAL_CLOSE);
    assert(out@ =~= initial_query(include_private));
    out
}

/// Builds the query for the repositories page after `cursor`.
pub fn build_repositories_query(cursor: &str, include_private: bool) -> (r: String)
    ensures
        r@ == repositories_query(cursor@, include_private),
{
    let mut out = String::new();
    push(&mut out, REPOSITORY_PAGE_OPEN);
    push_decimal(&mut out, MAX_PER_PAGE);
    push(&mut out, AFTER_CURSOR);
    push(&mut out, cursor);
    push(&mut out, CURSOR_END);
    push_affiliation(&mut out, include_private);
    push(&mut out, REPOSITORY_PAGE_FIELDS);
    push_decimal(&mut out, MAX_LANGUAGES_PER_REPO);
    push(&mut out, REPOSITORY_PAGE_CLOSE);
    assert(out@ =~= repositories_query(cursor@, include_private));
    out
}

/// Builds the query for the merged pull requests page after `cursor`.
pub fn build_merged_pull_requests_query(cursor: &str) -> (r: String)
    ensures
        r@ == merged_pull_requests_query(cursor@),
{
    let mut out = String::new();
    push(&mut out, MERGED_PAGE_OPEN);
    push_decimal(&mut out, MAX_PER_PAGE);
    push(&mut out, AFTER_CURSOR);
    push(&mut out, cursor);
    push(&mut out, CURSOR_END);
    push(&mut out, MERGED_PAGE_FIELDS);
    push_decimal(&mut out, AVATAR_SIZE);
    push(&mut out, MERGED_PAGE_CLOSE);
    assert(out@ =~= merged_pull_requests_query(cursor@));
    out
}

/// Without private repositories, every query that lists repositories, the
/// first one and each page after it, restricts them to public ones.
pub proof fn lemma_public_only_queries(cursor: Seq<char>)
    ensures
        holds(initial_query(false), OWNER_FILTER@ + PUBLIC_ONLY@),
        holds(repositories_query(cursor, false), OWNER_FILTER@ + PUBLIC_ONLY@),
{
    let filter = OWNER_FILTER@ + PUBLIC_ONLY@;
    let head = INITIAL_OPEN@ + num(MAX_PER_PAGE as int);
    let q = initial_query(false);
    assert(q.subrange(head.len() as int, (head.len() + filter.len()) as int) =~= filter);
    let page_head = REPOSITORY_PAGE_OPEN@ + num(MAX_PER_PAGE as int) + AFTER_CURSOR@ + cursor
        + CURSOR_END@;
    let p = repositories_query(cursor, false);
    assert(p.subrange(page_head.len() as int, (page_head.len() + filter.len()) as int) =~= filter);
}

} // verus!
