use github_stats::github::{
    ContributionsCollection, IssueConnection, MergedPullRequestConnection, PageInfo,
    PullRequestConnection, Repository, RepositoryConnection, User,
};
use github_stats::svg::format_number;
use github_stats::theme;
use github_stats::tiles::{RenderConfig, Statistics, Tile};

fn repo(stars: u32, forks: u32, is_fork: bool) -> Repository {
    Repository { stargazer_count: stars, fork_count: forks, is_fork, languages: None }
}

fn done() -> PageInfo {
    PageInfo { has_next_page: false, end_cursor: None }
}

fn user(repos: Vec<Repository>, commits: u32, restricted: u32) -> User {
    User {
        login: "octo".to_string(),
        contributions_collection: ContributionsCollection {
            total_commit_contributions: commits,
            restricted_contributions_count: restricted,
        },
        repositories: RepositoryConnection { nodes: repos, page_info: done() },
        pull_requests: PullRequestConnection { total_count: 42 },
        issues: IssueConnection { total_count: 7 },
        merged_pull_requests: MergedPullRequestConnection {
            total_count: 1234,
            nodes: vec![],
            page_info: done(),
        },
    }
}

#[test]
fn format_number_plain_below_thousand() {
    assert_eq!(format_number(0), "0");
    assert_eq!(format_number(7), "7");
    assert_eq!(format_number(999), "999");
}

#[test]
fn format_number_thousands() {
    assert_eq!(format_number(1000), "1.0k");
    assert_eq!(format_number(1500), "1.5k");
    assert_eq!(format_number(1949), "1.9k");
    assert_eq!(format_number(1951), "2.0k");
    assert_eq!(format_number(12_345), "12.3k");
    assert_eq!(format_number(999_999), "1000.0k");
}

#[test]
fn format_number_millions() {
    assert_eq!(format_number(1_000_000), "1.0M");
    assert_eq!(format_number(1_500_000), "1.5M");
    assert_eq!(format_number(u32::MAX), "4295.0M");
}

#[test]
fn stars_and_forks_skip_forks() {
    let u = user(vec![repo(10, 1, false), repo(500, 50, true), repo(5, 2, false)], 100, 20);
    let s = Statistics::from_user(&u);
    assert_eq!(s.total_stars, 15);
    assert_eq!(s.total_forks, 3);
    assert_eq!(s.total_commits, 120);
    assert_eq!(s.total_prs, 42);
    assert_eq!(s.total_issues, 7);
    assert_eq!(s.merged_prs, 1234);
}

#[test]
fn only_forks_count_nothing() {
    let u = user(vec![repo(10, 1, true), repo(20, 2, true)], 0, 0);
    let s = Statistics::from_user(&u);
    assert_eq!(s.total_stars, 0);
    assert_eq!(s.total_forks, 0);
}

#[test]
fn checked_statistics_reject_overflow() {
    let u = user(vec![repo(u32::MAX, 0, false), repo(1, 0, false)], 0, 0);
    assert!(Statistics::checked_from_user(&u).is_none());
    let u = user(vec![repo(u32::MAX, 0, false), repo(1, 0, true)], 0, 0);
    assert_eq!(Statistics::checked_from_user(&u).unwrap().total_stars, u32::MAX);
    let u = user(vec![], u32::MAX, 1);
    assert!(Statistics::checked_from_user(&u).is_none());
}

const STAR: &str = r#"<path d="M8 .25a.75.75 0 01.673.418l1.882 3.815 4.21.612a.75.75 0 01.416 1.279l-3.046 2.97.719 4.192a.75.75 0 01-1.088.791L8 12.347l-3.766 1.98a.75.75 0 01-1.088-.79l.72-4.194L.818 6.374a.75.75 0 01.416-1.28l4.21-.611L7.327.668A.75.75 0 018 .25z" transform="scale(0.875)"/>"#;

/// The statistics document as the layout formulas give it.
fn expected_statistics(s: &Statistics, config: &RenderConfig) -> String {
    let theme = config.theme;
    let icons = [
        github_stats::icons::STAR,
        github_stats::icons::FORK,
        github_stats::icons::COMMIT,
        github_stats::icons::PULL_REQUEST,
        github_stats::icons::ISSUE,
        github_stats::icons::CONTRIBUTION,
    ];
    let items = [
        ("Total Stars", s.total_stars),
        ("Total Forks", s.total_forks),
        ("Total Commits", s.total_commits),
        ("Total PRs", s.total_prs),
        ("Total Issues", s.total_issues),
        ("Merged PRs (ext)", s.merged_prs),
    ];
    let mut ml = [0usize; 2];
    let mut mn = [0usize; 2];
    for (i, (label, value)) in items.iter().enumerate() {
        ml[i % 2] = ml[i % 2].max(label.len());
        mn[i % 2] = mn[i % 2].max(format_number(*value).len());
    }
    let cw = |c: usize| 22 + (((ml[c] + mn[c]) as f64) * 6.5) as usize;
    let mut rows = String::new();
    for (i, (label, value)) in items.iter().enumerate() {
        let x = if i % 2 == 0 { 0 } else { cw(0) + 20 };
        rows.push_str(&format!(
            r#"
            <g transform="translate({}, {})">
                <g fill="{}">{}</g>
                <text x="22" y="12" fill="{}" font-size="12">{}: </text>
                <text x="{}" y="12" fill="{}" font-size="12" font-weight="bold" text-anchor="end">{}</text>
            </g>"#,
            x,
            (i / 2) * 20,
            theme.icon,
            icons[i],
            theme.text,
            label,
            cw(i % 2),
            theme.text,
            format_number(*value)
        ));
    }
    let width = cw(0) + 20 + cw(1);
    let bg = if config.opaque {
        format!(r#"<rect width="{}" height="56" rx="4.5" fill="{}"/>"#, width, theme.bg)
    } else {
        String::new()
    };
    format!(
        "<svg xmlns=\"http://www.w3.org/2000/svg\" width=\"{w}\" height=\"56\" viewBox=\"0 0 {w} 56\">\n  <style>{}</style>\n  {}\n  {}\n</svg>",
        github_stats::tiles::SVG_STYLES,
        bg,
        rows,
        w = width
    )
}

fn sample_statistics() -> Statistics {
    Statistics {
        total_stars: 1520,
        total_forks: 87,
        total_commits: 2_345_678,
        total_prs: 9,
        total_issues: 31,
        merged_prs: 456,
    }
}

#[test]
fn statistics_document_matches_layout() {
    let s = sample_statistics();
    for t in theme::all() {
        for opaque in [false, true] {
            let config = RenderConfig::new(t, opaque);
            assert_eq!(s.render(&config), expected_statistics(&s, &config));
        }
    }
}

#[test]
fn statistics_column_widths() {
    let s = sample_statistics();
    let doc = s.render(&RenderConfig::new(theme::light(), true));
    // column 0: "Total Commits" (13) + "2.3M" (4) -> 22 + 110 = 132
    // column 1: "Merged PRs (ext)" (16) + "456" (3) -> 22 + 123 = 145
    assert!(doc.starts_with(
        "<svg xmlns=\"http://www.w3.org/2000/svg\" width=\"297\" height=\"56\" viewBox=\"0 0 297 56\">"
    ));
    assert!(doc.contains("<g transform=\"translate(152, 0)\">"));
    assert!(doc.contains("<text x=\"145\" y=\"12\""));
    assert!(doc.contains(">2.3M</text>"));
    assert!(doc.contains(STAR));
}

#[test]
fn statistics_transparent_has_no_background() {
    let s = sample_statistics();
    let doc = s.render(&RenderConfig::new(theme::dark(), false));
    assert!(!doc.contains("<rect"));
    let doc = s.render(&RenderConfig::new(theme::dark(), true));
    assert!(doc.contains("<rect width=\"297\" height=\"56\" rx=\"4.5\" fill=\"#0d1117\"/>"));
}

#[test]
fn statistics_render_is_repeatable() {
    let s = sample_statistics();
    let config = RenderConfig::new(theme::light(), true);
    assert_eq!(s.render(&config), s.render(&config));
}

#[test]
fn statistics_filename() {
    let s = sample_statistics();
    assert_eq!(s.name(), "statistics");
    assert_eq!(s.filename("light"), "statistics_light.svg");
    assert_eq!(s.filename("dark"), "statistics_dark.svg");
}
