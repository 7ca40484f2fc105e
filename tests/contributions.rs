use github_stats::github::{
    ContributionsCollection, IssueConnection, MergedPullRequest, MergedPullRequestConnection,
    PageInfo, PullRequestConnection, PullRequestRepo, RepoOwner, RepositoryConnection, User,
};
use github_stats::svg::format_number;
use github_stats::theme;
use github_stats::tiles::{ContributionEntry, Contributions, RenderConfig, Tile};

fn pr(owner: &str, name: &str, stars: u32) -> MergedPullRequest {
    MergedPullRequest {
        repository: PullRequestRepo {
            name: name.to_string(),
            owner: RepoOwner {
                login: owner.to_string(),
                avatar_url: format!("https://avatars.example/{}/{}", owner, stars),
            },
            stargazer_count: stars,
        },
    }
}

fn done() -> PageInfo {
    PageInfo { has_next_page: false, end_cursor: None }
}

fn user(prs: Vec<MergedPullRequest>) -> User {
    User {
        login: "Octo".to_string(),
        contributions_collection: ContributionsCollection {
            total_commit_contributions: 0,
            restricted_contributions_count: 0,
        },
        repositories: RepositoryConnection { nodes: vec![], page_info: done() },
        pull_requests: PullRequestConnection { total_count: 0 },
        issues: IssueConnection { total_count: 0 },
        merged_pull_requests: MergedPullRequestConnection {
            total_count: prs.len() as u32,
            nodes: prs,
            page_info: done(),
        },
    }
}

fn keys(c: &Contributions) -> Vec<(String, String, u32)> {
    c.repos.iter().map(|e| (e.owner.clone(), e.repo.clone(), e.stars)).collect()
}

#[test]
fn duplicate_pull_requests_give_one_entry_with_first_stars() {
    let u = user(vec![pr("rust-lang", "rust", 90_000), pr("tokio-rs", "tokio", 25_000), pr("rust-lang", "rust", 95_000)]);
    let c = Contributions::from_user(&u, "octo");
    assert_eq!(
        keys(&c),
        vec![
            ("rust-lang".to_string(), "rust".to_string(), 90_000),
            ("tokio-rs".to_string(), "tokio".to_string(), 25_000),
        ]
    );
    assert_eq!(c.repos[0].avatar_data.as_deref(), Some("https://avatars.example/rust-lang/90000"));
}

#[test]
fn own_repositories_are_excluded_in_any_case() {
    let u = user(vec![pr("OCTO", "dotfiles", 5), pr("octo", "site", 3), pr("Octo", "x", 1), pr("other", "lib", 2)]);
    let c = Contributions::from_user(&u, "octo");
    assert_eq!(keys(&c), vec![("other".to_string(), "lib".to_string(), 2)]);
    let c = Contributions::from_user(&u, "OcTo");
    assert_eq!(c.repos.len(), 1);
}

#[test]
fn folded_owners_decide_exclusion() {
    let u = user(vec![pr("Alice", "a", 5), pr("bob", "b", 3)]);
    let folded = vec!["alice".to_string(), "bob".to_string()];
    let c = Contributions::from_folded(&u, &folded, &"alice".to_string(), 10);
    assert_eq!(keys(&c), vec![("bob".to_string(), "b".to_string(), 3)]);
    let c = Contributions::from_folded(&u, &folded, &"Alice".to_string(), 10);
    assert_eq!(c.repos.len(), 2);
}

#[test]
fn same_name_different_owner_are_distinct() {
    let u = user(vec![pr("a", "lib", 1), pr("b", "lib", 1), pr("A", "lib", 1)]);
    let c = Contributions::from_user(&u, "me");
    assert_eq!(c.repos.len(), 3);
}

#[test]
fn contributions_ranked_by_stars_ties_first_seen_top_ten() {
    let mut prs = vec![];
    for i in 0..12u32 {
        prs.push(pr(&format!("o{}", i), "r", if i % 3 == 0 { 100 } else { i }));
    }
    let c = Contributions::from_user(&user(prs), "me");
    let owners: Vec<_> = c.repos.iter().map(|e| e.owner.as_str()).collect();
    assert_eq!(owners, vec!["o0", "o3", "o6", "o9", "o11", "o10", "o8", "o7", "o5", "o4"]);
}

#[test]
fn no_contributions_render_placeholder() {
    let c = Contributions::from_user(&user(vec![pr("me", "mine", 3)]), "ME");
    assert!(c.repos.is_empty());
    let doc = c.render(&RenderConfig::new(theme::light(), true));
    let expected = format!(
        "<svg xmlns=\"http://www.w3.org/2000/svg\" width=\"350\" height=\"100\" viewBox=\"0 0 350 100\">\n  <style>\n    text {{ font-family: -apple-system, BlinkMacSystemFont, 'Segoe UI', Helvetica, Arial, sans-serif; }}\n  </style>\n  <rect width=\"350\" height=\"100\" rx=\"4.5\" fill=\"#ffffff\"/>\n  <text x=\"175\" y=\"53\" fill=\"#1f2328\" font-size=\"14\" text-anchor=\"middle\">No External Contributions</text>\n</svg>"
    );
    assert_eq!(doc, expected);
}

#[test]
fn avatars_are_embedded_as_base64() {
    let mut c = Contributions::from_user(&user(vec![pr("a", "x", 2), pr("b", "y", 1)]), "me");
    let urls = c.avatar_urls();
    assert_eq!(urls[0].as_deref(), Some("https://avatars.example/a/2"));
    c.embed_avatars(vec![Some(vec![1, 2, 3]), Some(b"hello".to_vec())]);
    assert_eq!(c.repos[0].avatar_data.as_deref(), Some("data:image/png;base64,AQID"));
    assert_eq!(c.repos[1].avatar_data.as_deref(), Some("data:image/png;base64,aGVsbG8="));
    assert_eq!(keys(&c), vec![("a".to_string(), "x".to_string(), 2), ("b".to_string(), "y".to_string(), 1)]);
}

#[test]
fn attached_avatars_take_given_text() {
    let mut c = Contributions::from_user(&user(vec![pr("a", "x", 2)]), "me");
    c.attach_avatars(vec![Some("QUJD".to_string())]);
    assert_eq!(c.repos[0].avatar_data.as_deref(), Some("data:image/png;base64,QUJD"));
}

#[test]
fn failed_avatar_renders_blank_image() {
    let mut c = Contributions::from_user(&user(vec![pr("a", "x", 2), pr("b", "y", 1)]), "me");
    // the first avatar came back with HTTP 404
    c.embed_avatars(vec![None, Some(vec![0xff])]);
    assert_eq!(c.repos[0].avatar_data, None);
    let doc = c.render(&RenderConfig::new(theme::dark(), false));
    assert!(doc.contains("<image href=\"\" x=\"0\" y=\"0\" width=\"20\" height=\"20\" clip-path=\"url(#avatar-clip-0)\"/>"));
    assert!(doc.contains("<image href=\"data:image/png;base64,/w==\""));
    assert!(doc.starts_with("<svg"));
    assert!(doc.ends_with("</svg>"));
}

/// The contributions document as the layout formulas give it.
fn expected_contributions(c: &Contributions, config: &RenderConfig) -> String {
    let theme = config.theme;
    let longest = c.repos.iter().map(|e| e.owner.len() + 1 + e.repo.len()).max().unwrap_or(0);
    let star_x = 28 + (longest as f64 * 6.5) as usize + 15;
    let width = star_x + 60;
    let height = (c.repos.len() - 1) * 24 + 20;
    let mut rows = String::new();
    for (i, e) in c.repos.iter().enumerate() {
        rows.push_str(&format!(
            r#"<g transform="translate(0, {})">
                <clipPath id="avatar-clip-{}">
                    <circle cx="10" cy="10" r="10"/>
                </clipPath>
                <image href="{}" x="0" y="0" width="20" height="20" clip-path="url(#avatar-clip-{})"/>
                <text x="28" y="14" fill="{}" font-size="12">
                    <tspan fill="{}">{}</tspan>/<tspan font-weight="600">{}</tspan>
                </text>
                <g transform="translate({}, 0)" fill="{}">
                    <g transform="translate(0, 4)">{}</g>
                    <text x="18" y="14" fill="{}" font-size="11">{}</text>
                </g>
            </g>"#,
            i * 24,
            i,
            e.avatar_data.as_deref().unwrap_or(""),
            i,
            theme.text,
            theme.icon,
            e.owner,
            e.repo,
            star_x,
            theme.star,
            github_stats::icons::STAR,
            theme.text,
            format_number(e.stars)
        ));
    }
    let bg = if config.opaque {
        format!(r#"<rect width="{}" height="{}" rx="4.5" fill="{}"/>"#, width, height, theme.bg)
    } else {
        String::new()
    };
    format!(
        "<svg xmlns=\"http://www.w3.org/2000/svg\" width=\"{w}\" height=\"{h}\" viewBox=\"0 0 {w} {h}\">\n  <style>{}</style>\n  {}\n  {}\n</svg>",
        github_stats::tiles::SVG_STYLES,
        bg,
        rows,
        w = width,
        h = height
    )
}

#[test]
fn contributions_document_matches_layout() {
    let c = Contributions {
        repos: vec![
            ContributionEntry {
                owner: "rust-lang".to_string(),
                repo: "rust".to_string(),
                stars: 98_765,
                avatar_data: Some("data:image/png;base64,AA==".to_string()),
            },
            ContributionEntry { owner: "a".to_string(), repo: "b".to_string(), stars: 12, avatar_data: None },
            ContributionEntry {
                owner: "serde-rs".to_string(),
                repo: "json".to_string(),
                stars: 4_321,
                avatar_data: Some("data:image/png;base64,AQ==".to_string()),
            },
        ],
    };
    for t in theme::all() {
        for opaque in [false, true] {
            let config = RenderConfig::new(t, opaque);
            assert_eq!(c.render(&config), expected_contributions(&c, &config));
        }
    }
    // "rust-lang/rust" is 14 characters: 28 + 91 + 15 = 134
    let doc = c.render(&RenderConfig::new(theme::light(), false));
    assert!(doc.contains("<g transform=\"translate(134, 0)\" fill=\"#e3b341\">"));
    assert!(doc.contains("width=\"194\" height=\"68\""));
    assert!(doc.contains(">98.8k</text>"));
    assert_eq!(c.filename("light"), "contributions_light.svg");
}

#[test]
fn contribution_limit_is_configurable() {
    let u = user(vec![pr("a", "x", 1), pr("b", "y", 3), pr("c", "z", 2)]);
    let c = Contributions::top_from_user(&u, "me", 2);
    assert_eq!(
        keys(&c),
        vec![("b".to_string(), "y".to_string(), 3), ("c".to_string(), "z".to_string(), 2)]
    );
    assert!(Contributions::top_from_user(&u, "me", 0).repos.is_empty());
    assert_eq!(Contributions::top_from_user(&u, "me", 50).repos.len(), 3);
}
