use github_stats::github::{
    ContributionsCollection, IssueConnection, Language, LanguageConnection, LanguageEdge,
    MergedPullRequestConnection, PageInfo, PullRequestConnection, Repository, RepositoryConnection,
    User,
};
use github_stats::theme;
use github_stats::tiles::languages::UNIT;
use github_stats::tiles::{Direction, LanguageEntry, Languages, RenderConfig, Tile};

fn edge(name: &str, size: u64, color: Option<&str>) -> LanguageEdge {
    LanguageEdge {
        size,
        node: Language { name: name.to_string(), color: color.map(|c| c.to_string()) },
    }
}

fn repo(is_fork: bool, edges: Option<Vec<LanguageEdge>>) -> Repository {
    Repository {
        stargazer_count: 1,
        fork_count: 0,
        is_fork,
        languages: edges.map(|edges| LanguageConnection { edges }),
    }
}

fn done() -> PageInfo {
    PageInfo { has_next_page: false, end_cursor: None }
}

fn user(repos: Vec<Repository>) -> User {
    User {
        login: "octo".to_string(),
        contributions_collection: ContributionsCollection {
            total_commit_contributions: 0,
            restricted_contributions_count: 0,
        },
        repositories: RepositoryConnection { nodes: repos, page_info: done() },
        pull_requests: PullRequestConnection { total_count: 0 },
        issues: IssueConnection { total_count: 0 },
        merged_pull_requests: MergedPullRequestConnection {
            total_count: 0,
            nodes: vec![],
            page_info: done(),
        },
    }
}

fn entry(name: &str, bytes: u64, color: &str) -> LanguageEntry {
    LanguageEntry { name: name.to_string(), bytes, color: color.to_string() }
}

fn summary(l: &Languages) -> Vec<(String, u64, String)> {
    l.languages.iter().map(|e| (e.name.clone(), e.bytes, e.color.clone())).collect()
}

#[test]
fn language_bytes_are_summed_over_own_repositories() {
    let u = user(vec![
        repo(false, Some(vec![edge("Rust", 300, Some("#dea584")), edge("Shell", 20, None)])),
        repo(true, Some(vec![edge("Go", 10_000, Some("#00ADD8")), edge("Rust", 5_000, None)])),
        repo(false, None),
        repo(false, Some(vec![edge("Shell", 30, Some("#89e051")), edge("Rust", 200, None)])),
    ]);
    let l = Languages::from_user(&u);
    assert_eq!(
        summary(&l),
        vec![
            ("Rust".to_string(), 500, "#dea584".to_string()),
            ("Shell".to_string(), 50, "#858585".to_string()),
        ]
    );
    assert_eq!(l.total_bytes, 550);
    assert_eq!(l.languages.iter().map(|e| e.bytes).sum::<u64>(), l.total_bytes);
}

#[test]
fn language_ties_keep_first_seen_order() {
    let u = user(vec![
        repo(false, Some(vec![edge("C", 10, None), edge("Zig", 40, None), edge("Ada", 10, None)])),
        repo(false, Some(vec![edge("Ada", 30, None), edge("C", 30, None)])),
    ]);
    let l = Languages::from_user(&u);
    let names: Vec<_> = l.languages.iter().map(|e| e.name.as_str()).collect();
    assert_eq!(names, vec!["C", "Zig", "Ada"]);
    assert_eq!(l.total_bytes, 120);
}

#[test]
fn no_languages_without_own_repositories() {
    let u = user(vec![repo(true, Some(vec![edge("Go", 10, None)]))]);
    let l = Languages::from_user(&u);
    assert!(l.languages.is_empty());
    assert_eq!(l.total_bytes, 0);
    let doc = l.render(&RenderConfig::new(theme::light(), false));
    assert!(doc.contains(">No Languages Found</text>"));
}

#[test]
fn checked_languages_reject_overflow() {
    let u = user(vec![repo(false, Some(vec![edge("A", u64::MAX, None), edge("B", 1, None)]))]);
    assert!(Languages::checked_from_user(&u).is_none());
    let u = user(vec![repo(false, Some(vec![edge("A", u64::MAX - 1, None), edge("B", 1, None)]))]);
    assert_eq!(Languages::checked_from_user(&u).unwrap().total_bytes, u64::MAX);
}

fn langs(entries: Vec<LanguageEntry>) -> Languages {
    let total_bytes = entries.iter().map(|e| e.bytes).sum();
    Languages { languages: entries, total_bytes, chart: vec![] }
}

#[test]
fn donut_sweeps_for_half_and_fifths() {
    let l = langs(vec![entry("A", 50, "#a"), entry("B", 30, "#b"), entry("C", 20, "#c")]);
    let sectors = l.sectors();
    let sweeps: Vec<u64> = sectors.iter().map(|s| 360 * (s.end - s.start) / s.turn).collect();
    assert_eq!(sweeps, vec![180, 108, 72]);
    assert_eq!(sweeps.iter().sum::<u64>(), 360);
    for s in &sectors {
        assert_eq!(360 * (s.end - s.start) % s.turn, 0);
    }
    // exactly 180 degrees is not a large arc
    assert_eq!(sectors.iter().map(|s| s.large_arc).collect::<Vec<_>>(), vec![false, false, false]);
    assert_eq!((sectors[0].start, sectors[2].end), (0, 100));
}

#[test]
fn donut_large_arc_above_half() {
    let l = langs(vec![entry("A", 61, "#a"), entry("B", 39, "#b")]);
    let flags: Vec<bool> = l.sectors().iter().map(|s| s.large_arc).collect();
    assert_eq!(flags, vec![true, false]);
}

#[test]
fn donut_shows_at_most_eight_languages() {
    let entries: Vec<_> = (0..10).map(|i| entry(&format!("L{}", i), 10 - i, "#000")).collect();
    let l = langs(entries);
    let sectors = l.sectors();
    assert_eq!(sectors.len(), 8);
    assert_eq!(sectors[7].end, 10 + 9 + 8 + 7 + 6 + 5 + 4 + 3);
    assert_eq!(sectors[7].turn, 55);
}

/// Directions of the sector boundaries, as a caller computes them.
fn chart_for(l: &Languages) -> Vec<Direction> {
    let sectors = l.sectors();
    let mut bounds = vec![];
    if let Some(first) = sectors.first() {
        bounds.push((first.start, first.turn));
    }
    for s in &sectors {
        bounds.push((s.end, s.turn));
    }
    bounds
        .iter()
        .map(|(at, turn)| {
            let angle = (-90.0 + 360.0 * (*at as f64) / (*turn as f64)).to_radians();
            Direction {
                cos: (angle.cos() * UNIT as f64).round() as i64,
                sin: (angle.sin() * UNIT as f64).round() as i64,
            }
        })
        .collect()
}

/// The languages document as the floating-point layout gives it.
fn expected_languages(l: &Languages, config: &RenderConfig) -> String {
    let theme = config.theme;
    let top: Vec<_> = l.languages.iter().take(8).collect();
    let data: Vec<_> = top
        .iter()
        .map(|e| (e.name.as_str(), (e.bytes as f64 / l.total_bytes as f64) * 100.0, e.color.as_str()))
        .collect();
    let mut paths = String::new();
    let mut start = -90.0_f64;
    for (_, pct, color) in &data {
        let sweep = pct * 3.6;
        let end = start + sweep;
        let (s, e) = (start.to_radians(), end.to_radians());
        let large = if sweep > 180.0 { 1 } else { 0 };
        paths.push_str(&format!(
            r#"<path d="M {:.2} {:.2} A 70 70 0 {} 1 {:.2} {:.2} L {:.2} {:.2} A 42 42 0 {} 0 {:.2} {:.2} Z" fill="{}"/>"#,
            70.0 + 70.0 * s.cos(),
            70.0 + 70.0 * s.sin(),
            large,
            70.0 + 70.0 * e.cos(),
            70.0 + 70.0 * e.sin(),
            70.0 + 42.0 * e.cos(),
            70.0 + 42.0 * e.sin(),
            large,
            70.0 + 42.0 * s.cos(),
            70.0 + 42.0 * s.sin(),
            color
        ));
        start = end;
    }
    let mut legend = String::new();
    for (i, (name, pct, color)) in data.iter().enumerate() {
        legend.push_str(&format!(
            r#"<g transform="translate(0, {})">
                <rect width="12" height="12" rx="2" fill="{}"/>
                <text x="18" y="10" fill="{}" font-size="11">{} <tspan fill="{}">{:.1}%</tspan></text>
            </g>"#,
            i * 16,
            color,
            theme.text,
            name,
            theme.icon,
            pct
        ));
    }
    let legend_height = (data.len() - 1) * 16 + 12;
    let height = legend_height.max(140);
    let offset = (height - legend_height) / 2;
    let legend = if offset > 0 {
        format!(r#"<g transform="translate(0, {})">{}</g>"#, offset, legend)
    } else {
        legend
    };
    let bg = if config.opaque {
        format!(r#"<rect width="290" height="{}" rx="4.5" fill="{}"/>"#, height, theme.bg)
    } else {
        String::new()
    };
    format!(
        "<svg xmlns=\"http://www.w3.org/2000/svg\" width=\"290\" height=\"{h}\" viewBox=\"0 0 290 {h}\">\n  <style>{}</style>\n  {}\n  {}\n  <g transform=\"translate(150, {})\">\n    {}\n  </g>\n</svg>",
        github_stats::tiles::SVG_STYLES,
        bg,
        legend,
        (height - 140) / 2,
        paths,
        h = height
    )
}

#[test]
fn languages_document_matches_layout() {
    let mut l = langs(vec![
        entry("Rust", 6_210, "#dea584"),
        entry("TypeScript", 2_330, "#3178c6"),
        entry("Shell", 910, "#89e051"),
        entry("Nix", 420, "#7e7eff"),
    ]);
    l.chart = chart_for(&l);
    for t in theme::all() {
        for opaque in [false, true] {
            let config = RenderConfig::new(t, opaque);
            assert_eq!(l.render(&config), expected_languages(&l, &config));
        }
    }
}

#[test]
fn languages_document_first_sector_starts_at_top() {
    let mut l = langs(vec![entry("A", 50, "#a"), entry("B", 30, "#b"), entry("C", 20, "#c")]);
    l.chart = chart_for(&l);
    let doc = l.render(&RenderConfig::new(theme::light(), false));
    assert!(doc.contains(r##"<path d="M 70.00 0.00 A 70 70 0 0 1 70.00 140.00 L 70.00 112.00 A 42 42 0 0 0 70.00 28.00 Z" fill="#a"/>"##));
    assert!(doc.contains("50.0%</tspan>"));
    assert!(doc.contains("30.0%</tspan>"));
    assert!(doc.contains("20.0%</tspan>"));
    assert_eq!(doc, l.render(&RenderConfig::new(theme::light(), false)));
}

#[test]
fn languages_percentages_round_to_tenths() {
    let mut l = langs(vec![entry("A", 2, "#a"), entry("B", 1, "#b")]);
    l.chart = chart_for(&l);
    let doc = l.render(&RenderConfig::new(theme::dark(), true));
    assert!(doc.contains(">A <tspan fill=\"#7d8590\">66.7%</tspan>"));
    assert!(doc.contains(">B <tspan fill=\"#7d8590\">33.3%</tspan>"));
    assert!(doc.contains(r#"<path d="M 70.00 0.00 A 70 70 0 1 1 "#));
}

#[test]
fn languages_filename() {
    let l = langs(vec![]);
    assert_eq!(l.filename("dark"), "languages_dark.svg");
}

#[test]
fn languages_without_bytes_show_zero_percent() {
    let mut l = langs(vec![entry("A", 0, "#a"), entry("B", 0, "#b")]);
    let sectors = l.sectors();
    assert_eq!(sectors.iter().map(|s| (s.start, s.end, s.turn, s.large_arc)).collect::<Vec<_>>(), vec![(0, 0, 1, false), (0, 0, 1, false)]);
    l.chart = chart_for(&l);
    let doc = l.render(&RenderConfig::new(theme::light(), false));
    assert!(doc.contains(">A <tspan fill=\"#59636e\">0.0%</tspan>"));
    assert!(doc.contains(r##"<path d="M 70.00 0.00 A 70 70 0 0 1 70.00 0.00 L 70.00 28.00 A 42 42 0 0 0 70.00 28.00 Z" fill="#b"/>"##));
}

#[test]
fn palettes() {
    let all = theme::all();
    assert_eq!(all.len(), 2);
    assert_eq!((all[0].name, all[0].bg, all[0].text), ("light", "#ffffff", "#1f2328"));
    assert_eq!((all[1].name, all[1].bg, all[1].icon, all[1].star), ("dark", "#0d1117", "#7d8590", "#e3b341"));
}
