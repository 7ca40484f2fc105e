use github_stats::github::query::{build_initial_query, build_merged_pull_requests_query, build_repositories_query};
use github_stats::github::{
    assemble_snapshot, present, ContributionsCollection, FetchError, GraphQLError, GraphQLResponse,
    IssueConnection, MergedPullRequestConnection, PageInfo, Pager, PullRequestConnection, Repository,
    RepositoryConnection, User,
};

fn repo(stars: u32) -> Repository {
    Repository { stargazer_count: stars, fork_count: 0, is_fork: false, languages: None }
}

fn page(first: u32, count: u32) -> Vec<Repository> {
    (first..first + count).map(repo).collect()
}

fn info(next: Option<&str>) -> PageInfo {
    PageInfo { has_next_page: next.is_some(), end_cursor: next.map(|c| c.to_string()) }
}

#[test]
fn pages_merge_in_order() {
    let mut pager = Pager::new(page(0, 100), info(Some("c1")));
    let mut queries = vec![];
    let pages = vec![(page(100, 100), info(Some("c2"))), (page(200, 37), info(None))];
    let mut pages = pages.into_iter();
    while let Some(query) = pager.next_query(false).ok().unwrap() {
        queries.push(query);
        let (items, page_info) = pages.next().unwrap();
        pager.absorb(items, page_info);
    }
    assert_eq!(pager.items.len(), 237);
    assert!(pager.items.iter().enumerate().all(|(i, r)| r.stargazer_count == i as u32));
    assert_eq!(queries.len(), 2);
    assert!(queries[0].contains("after: \"c1\", ownerAffiliations: OWNER, privacy: PUBLIC, orderBy"));
    assert!(queries[1].contains("after: \"c2\""));
    assert!(pages.next().is_none());
}

#[test]
fn next_page_without_cursor_is_a_pagination_error() {
    let pager: Pager<Repository> = Pager::new(vec![], PageInfo { has_next_page: true, end_cursor: None });
    match pager.next_cursor() {
        Err(FetchError::Pagination) => {}
        _ => panic!("expected a pagination error"),
    }
    assert_eq!(FetchError::Pagination.message(), "Missing cursor for next page");
    let pager: Pager<Repository> = Pager::new(vec![], PageInfo { has_next_page: false, end_cursor: Some("x".to_string()) });
    assert!(matches!(pager.next_cursor(), Ok(None)));
}

#[test]
fn merged_pull_request_page_query_uses_cursor() {
    let q = build_merged_pull_requests_query("Y3Vyc29y");
    assert!(q.contains("mergedPullRequests: pullRequests(first: 100, after: \"Y3Vyc29y\", states: MERGED"));
    assert!(q.contains("avatarUrl(size: 32)"));
}

#[test]
fn first_query_filters_private_repositories() {
    let public = build_initial_query(false);
    assert!(public.contains("repositories(first: 100, ownerAffiliations: OWNER, privacy: PUBLIC, orderBy: {field: STARGAZERS, direction: DESC})"));
    assert!(public.contains("languages(first: 100, orderBy: {field: SIZE, direction: DESC})"));
    assert!(public.contains("mergedPullRequests: pullRequests(first: 100, states: MERGED"));
    let all = build_initial_query(true);
    assert!(!all.contains("privacy"));
    assert!(all.contains("ownerAffiliations: OWNER, orderBy"));
    let page = build_repositories_query("abc", true);
    assert!(!page.contains("privacy"));
}

#[test]
fn response_errors_are_protocol_errors() {
    let response: GraphQLResponse<u32> = GraphQLResponse {
        data: Some(1),
        errors: Some(vec![
            GraphQLError { message: "Bad credentials".to_string() },
            GraphQLError { message: "Rate limited".to_string() },
        ]),
    };
    match response.into_data() {
        Err(FetchError::Protocol(m)) => assert_eq!(m, "GraphQL errors: Bad credentials, Rate limited"),
        _ => panic!("expected a protocol error"),
    }
}

#[test]
fn response_without_data_is_missing_data() {
    let response: GraphQLResponse<u32> = GraphQLResponse { data: None, errors: None };
    match response.into_data() {
        Err(e @ FetchError::MissingData(_)) => assert_eq!(e.message(), "No data in response"),
        _ => panic!("expected missing data"),
    }
    let response: GraphQLResponse<u32> = GraphQLResponse { data: Some(5), errors: None };
    assert!(matches!(response.into_data(), Ok(5)));
    assert!(matches!(present::<u8>(None, "No viewer in response"), Err(FetchError::MissingData(m)) if m == "No viewer in response"));
    assert_eq!(FetchError::Transport("timed out".to_string()).message(), "timed out");
}

#[test]
fn snapshot_keeps_first_page_totals() {
    let first = User {
        login: "octo".to_string(),
        contributions_collection: ContributionsCollection {
            total_commit_contributions: 3,
            restricted_contributions_count: 4,
        },
        repositories: RepositoryConnection { nodes: page(0, 2), page_info: info(Some("r")) },
        pull_requests: PullRequestConnection { total_count: 11 },
        issues: IssueConnection { total_count: 12 },
        merged_pull_requests: MergedPullRequestConnection {
            total_count: 500,
            nodes: vec![],
            page_info: info(Some("m")),
        },
    };
    let snapshot = assemble_snapshot(first, page(0, 5), vec![]);
    let user = snapshot.viewer.unwrap();
    assert_eq!(user.login, "octo");
    assert_eq!(user.repositories.nodes.len(), 5);
    assert!(!user.repositories.page_info.has_next_page);
    assert_eq!(user.merged_pull_requests.total_count, 500);
    assert!(user.merged_pull_requests.nodes.is_empty());
    assert!(user.merged_pull_requests.page_info.end_cursor.is_none());
    assert_eq!(user.pull_requests.total_count, 11);
    assert_eq!(user.contributions_collection.restricted_contributions_count, 4);
}
