//! The statistics tile: six counters in two columns.

use super::{
    num, push, push_num, finish_tile, tile_document, RenderConfig, Tile, CHAR_WIDTH_HALVES,
    FONT_SIZE,
};
use crate::github::{Repository, User};
use crate::icons;
use crate::svg::{format_number, formatted_number, lemma_formatted_len};
use vstd::prelude::*;
use vstd::string::*;

verus! {

// Layout
pub const ROW_HEIGHT: u128 = 20;

pub const NUM_ROWS: u128 = 3;

pub const CONTENT_HEIGHT: u128 = 16;

pub const COL_GAP: u128 = 20;

pub const ICON_OFFSET: u128 = 22;

pub const TEXT_Y: u128 = 12;

/// Number of counters on the tile.
pub const NUM_ITEMS: usize = 6;

/// Statistics data extracted from GitHub user
pub struct Statistics {
    pub total_stars: u32,
    pub total_forks: u32,
    pub total_commits: u32,
    pub total_prs: u32,
    pub total_issues: u32,
    /// Merged pull requests as the service counted them, which may exceed
    /// those gathered page by page.
    pub merged_prs: u32,
}

/// What repository `r` adds to a total of stars (or of forks, with `forks`):
/// nothing when it is a fork.
pub open spec fn own_count(r: Repository, forks: bool) -> nat {
    if r.is_fork {
        0
    } else if forks {
        r.fork_count as nat
    } else {
        r.stargazer_count as nat
    }
}

/// Sum of the stars (or forks) of the repositories that are not forks.
pub open spec fn own_sum(repos: Seq<Repository>, forks: bool) -> nat
    decreases repos.len(),
{
    if repos.len() == 0 {
        0
    } else {
        own_sum(repos.drop_last(), forks) + own_count(repos.last(), forks)
    }
}

/// Stars over the repositories that are not forks.
pub open spec fn star_total(repos: Seq<Repository>) -> nat {
    own_sum(repos, false)
}

/// Forks over the repositories that are not forks.
pub open spec fn fork_total(repos: Seq<Repository>) -> nat {
    own_sum(repos, true)
}

/// Commits, private ones included.
pub open spec fn commit_total(user: User) -> nat {
    (user.contributions_collection.total_commit_contributions
        + user.contributions_collection.restricted_contributions_count) as nat
}

/// Whether every counter of `user` fits in 32 bits.
pub open spec fn totals_fit(user: User) -> bool {
    &&& star_total(user.repositories.nodes@) <= u32::MAX
    &&& fork_total(user.repositories.nodes@) <= u32::MAX
    &&& commit_total(user) <= u32::MAX
}

/// The counters of `stats` are those of `user`.
pub open spec fn statistics_of(user: User, stats: Statistics) -> bool {
    &&& stats.total_stars == star_total(user.repositories.nodes@)
    &&& stats.total_forks == fork_total(user.repositories.nodes@)
    &&& stats.total_commits == commit_total(user)
    &&& stats.total_prs == user.pull_requests.total_count
    &&& stats.total_issues == user.issues.total_count
    &&& stats.merged_prs == user.merged_pull_requests.total_count
}

/// A prefix never sums to more than the whole.
pub proof fn lemma_own_sum_prefix(repos: Seq<Repository>, forks: bool, i: int)
    requires
        0 <= i <= repos.len(),
    ensures
        own_sum(repos.take(i), forks) <= own_sum(repos, forks),
    decreases repos.len(),
{
    if i < repos.len() {
        assert(repos.drop_last().take(i) =~= repos.take(i));
        lemma_own_sum_prefix(repos.drop_last(), forks, i);
    } else {
        assert(repos.take(i) =~= repos);
    }
}

/// A fork counts toward neither total: removing one from the repositories
/// leaves the stars and the forks as they were.
pub proof fn lemma_forks_do_not_count(repos: Seq<Repository>, i: int)
    requires
        0 <= i < repos.len(),
        repos[i].is_fork,
    ensures
        star_total(repos.remove(i)) == star_total(repos),
        fork_total(repos.remove(i)) == fork_total(repos),
{
    lemma_remove_fork(repos, i, false);
    lemma_remove_fork(repos, i, true);
}

proof fn lemma_remove_fork(repos: Seq<Repository>, i: int, forks: bool)
    requires
        0 <= i < repos.len(),
        repos[i].is_fork,
    ensures
        own_sum(repos.remove(i), forks) == own_sum(repos, forks),
    decreases repos.len(),
{
    if i == repos.len() - 1 {
        assert(repos.remove(i) =~= repos.drop_last());
    } else {
        assert(repos.remove(i).drop_last() =~= repos.drop_last().remove(i));
        assert(repos.remove(i).last() == repos.last());
        lemma_remove_fork(repos.drop_last(), i, forks);
    }
}

/// Sum of stars (or forks) over the repositories that are not forks, unless it
/// exceeds 32 bits.
fn checked_own_sum(repos: &Vec<Repository>, forks: bool) -> (r: Option<u32>)
    ensures
        r matches Some(v) ==> v == own_sum(repos@, forks),
        r is None <==> own_sum(repos@, forks) > u32::MAX,
{
    let mut total: u32 = 0;
    let mut i: usize = 0;
    while i < repos.len()
        invariant
            i <= repos.len(),
            total == own_sum(repos@.take(i as int), forks),
        decreases repos.len() - i,
    {
        let repo = &repos[i];
        assert(repos@.take(i + 1).drop_last() =~= repos@.take(i as int));
        if !repo.is_fork {
            let count = if forks {
                repo.fork_count
            } else {
                repo.stargazer_count
            };
            match total.checked_add(count) {
                Some(t) => {
                    total = t;
                },
                None => {
                    proof {
                        lemma_own_sum_prefix(repos@, forks, i + 1);
                    }
                    return None;
                },
            }
        }
        i += 1;
    }
    assert(repos@.take(i as int) =~= repos@);
    Some(total)
}

impl Statistics {
    /// Extracts the counters from `user`, or `None` when one exceeds 32 bits.
    pub fn checked_from_user(user: &User) -> (r: Option<Self>)
        ensures
            r matches Some(s) ==> statistics_of(*user, s),
            r is None <==> !totals_fit(*user),
    {
        let total_stars = match checked_own_sum(&user.repositories.nodes, false) {
            Some(v) => v,
            None => return None,
        };
        let total_forks = match checked_own_sum(&user.repositories.nodes, true) {
            Some(v) => v,
            None => return None,
        };
        let total_commits = match user.contributions_collection.total_commit_contributions.checked_add(
            user.contributions_collection.restricted_contributions_count,
        ) {
            Some(v) => v,
            None => return None,
        };
        Some(
            Statistics {
                total_stars,
                total_forks,
                total_commits,
                total_prs: user.pull_requests.total_count,
                total_issues: user.issues.total_count,
                merged_prs: user.merged_pull_requests.total_count,
            },
        )
    }

    /// Extracts the counters from `user`: stars and forks summed over the
    /// repositories that are not forks, commits private ones included, and the
    /// totals that the service reported.
    pub fn from_user(user: &User) -> (r: Self)
        requires
            totals_fit(*user),
        ensures
            statistics_of(*user, r),
    {
        Self::checked_from_user(user).unwrap()
    }
}

/// Label of counter `i`.
pub open spec fn label(i: int) -> &'static str {
    if i == 0 {
        "Total Stars"
    } else if i == 1 {
        "Total Forks"
    } else if i == 2 {
        "Total Commits"
    } else if i == 3 {
        "Total PRs"
    } else if i == 4 {
        "Total Issues"
    } else {
        "Merged PRs (ext)"
    }
}

/// Glyph of counter `i`.
pub open spec fn glyph(i: int) -> &'static str {
    if i == 0 {
        icons::STAR
    } else if i == 1 {
        icons::FORK
    } else if i == 2 {
        icons::COMMIT
    } else if i == 3 {
        icons::PULL_REQUEST
    } else if i == 4 {
        icons::ISSUE
    } else {
        icons::CONTRIBUTION
    }
}

pub open spec fn max3(a: nat, b: nat, c: nat) -> nat {
    if a >= b && a >= c {
        a
    } else if b >= c {
        b
    } else {
        c
    }
}

/// Longest label of column `col`; counter `i` stands in column `i % 2`, row `i / 2`.
pub open spec fn label_width(col: int) -> nat {
    max3(label(col)@.len(), label(col + 2)@.len(), label(col + 4)@.len())
}

/// Height of the tile.
pub open spec fn tile_height() -> int {
    ((NUM_ROWS - 1) * ROW_HEIGHT + CONTENT_HEIGHT) as int
}

impl Statistics {
    /// Value of counter `i`.
    pub open spec fn value(self, i: int) -> u32 {
        if i == 0 {
            self.total_stars
        } else if i == 1 {
            self.total_forks
        } else if i == 2 {
            self.total_commits
        } else if i == 3 {
            self.total_prs
        } else if i == 4 {
            self.total_issues
        } else {
            self.merged_prs
        }
    }

    /// Longest formatted value of column `col`.
    pub open spec fn number_width(self, col: int) -> nat {
        max3(
            formatted_number(self.value(col)).len(),
            formatted_number(self.value(col + 2)).len(),
            formatted_number(self.value(col + 4)).len(),
        )
    }

    /// Width of column `col`: glyph, then label and value at the average
    /// character width (rounded down).
    pub open spec fn column_width(self, col: int) -> int {
        ICON_OFFSET + (label_width(col) + self.number_width(col)) * CHAR_WIDTH_HALVES / 2
    }

    /// Width of the tile: both columns and the gap between them.
    pub open spec fn tile_width(self) -> int {
        self.column_width(0) + COL_GAP + self.column_width(1)
    }

    /// Left edge of counter `i`.
    pub open spec fn row_x(self, i: int) -> int {
        if i % 2 == 0 {
            0
        } else {
            self.column_width(0) + COL_GAP
        }
    }

    /// Glyph of counter `i`, opening its group.
    pub open spec fn row_glyph(self, i: int, config: RenderConfig) -> Seq<char> {
        "\n            <g transform=\"translate("@ + num(self.row_x(i)) + ", "@ + num(
            (i / 2) * ROW_HEIGHT,
        ) + ")\">\n                <g fill=\""@ + config.theme.icon@ + "\">"@ + glyph(i)@
            + "</g>"@
    }

    /// Label of counter `i`.
    pub open spec fn row_label(self, i: int, config: RenderConfig) -> Seq<char> {
        "\n                <text x=\""@ + num(ICON_OFFSET as int) + "\" y=\""@ + num(TEXT_Y as int)
            + "\" fill=\""@ + config.theme.text@ + "\" font-size=\""@ + num(FONT_SIZE as int)
            + "\">"@ + label(i)@ + ": </text>"@
    }

    /// Value of counter `i`, right-aligned at the end of its column, closing its group.
    pub open spec fn row_value(self, i: int, config: RenderConfig) -> Seq<char> {
        "\n                <text x=\""@ + num(self.column_width(i % 2)) + "\" y=\""@ + num(
            TEXT_Y as int,
        ) + "\" fill=\""@ + config.theme.text@ + "\" font-size=\""@ + num(FONT_SIZE as int)
            + "\" font-weight=\"bold\" text-anchor=\"end\">"@ + formatted_number(self.value(i))
            + "</text>\n            </g>"@
    }

    /// Glyph, label and right-aligned value of counter `i`.
    pub open spec fn row(self, i: int, config: RenderConfig) -> Seq<char> {
        self.row_glyph(i, config) + self.row_label(i, config) + self.row_value(i, config)
    }

    /// The first `n` counters.
    pub open spec fn rows(self, config: RenderConfig, n: nat) -> Seq<char>
        decreases n,
    {
        if n == 0 {
            Seq::empty()
        } else {
            self.rows(config, (n - 1) as nat) + self.row(n - 1, config)
        }
    }

    /// The statistics document.
    pub open spec fn statistics_document(self, config: RenderConfig) -> Seq<char> {
        tile_document(
            self.tile_width(),
            tile_height(),
            config,
            self.rows(config, NUM_ITEMS as nat),
        )
    }

    fn value_at(&self, i: usize) -> (r: u32)
        ensures
            r == self.value(i as int),
    {
        if i == 0 {
            self.total_stars
        } else if i == 1 {
            self.total_forks
        } else if i == 2 {
            self.total_commits
        } else if i == 3 {
            self.total_prs
        } else if i == 4 {
            self.total_issues
        } else {
            self.merged_prs
        }
    }

    fn number_width_of(&self, col: usize) -> (r: u128)
        requires
            col < 2,
        ensures
            r == self.number_width(col as int),
    {
        let a = format_number(self.value_at(col)).as_str().unicode_len() as u128;
        let b = format_number(self.value_at(col + 2)).as_str().unicode_len() as u128;
        let c = format_number(self.value_at(col + 4)).as_str().unicode_len() as u128;
        max3_of(a, b, c)
    }

    fn column_width_of(&self, col: usize) -> (r: u128)
        requires
            col < 2,
        ensures
            r == self.column_width(col as int),
            r <= 0x1_0000_0000_0000,
    {
        proof {
            lemma_formatted_len(self.value(col as int));
            lemma_formatted_len(self.value(col + 2));
            lemma_formatted_len(self.value(col + 4));
        }
        let widths = label_width_of(col) + self.number_width_of(col);
        ICON_OFFSET + widths * CHAR_WIDTH_HALVES / 2
    }

    /// Appends counter `i`.
    fn push_row(&self, out: &mut String, i: usize, config: &RenderConfig, col0: u128)
        requires
            i < NUM_ITEMS,
            col0 == self.column_width(0),
            col0 <= 0x1_0000_0000_0000,
        ensures
            final(out)@ == old(out)@ + self.row(i as int, *config),
    {
        let ghost start = out@;
        self.push_row_glyph(out, i, config, col0);
        self.push_row_label(out, i, config);
        self.push_row_value(out, i, config);
        assert(out@ =~= start + self.row(i as int, *config));
    }

    fn push_row_glyph(&self, out: &mut String, i: usize, config: &RenderConfig, col0: u128)
        requires
            i < NUM_ITEMS,
            col0 == self.column_width(0),
            col0 <= 0x1_0000_0000_0000,
        ensures
            final(out)@ == old(out)@ + self.row_glyph(i as int, *config),
    {
        let ghost start = out@;
        let x = if i % 2 == 0 {
            0
        } else {
            col0 + COL_GAP
        };
        push(out, "\n            <g transform=\"translate(");
        push_num(out, x);
        push(out, ", ");
        push_num(out, (i / 2) as u128 * ROW_HEIGHT);
        push(out, ")\">\n                <g fill=\"");
        push(out, config.theme.icon);
        push(out, "\">");
        push(out, glyph_of(i));
        push(out, "</g>");
        assert(out@ =~= start + self.row_glyph(i as int, *config));
    }

    fn push_row_label(&self, out: &mut String, i: usize, config: &RenderConfig)
        requires
            i < NUM_ITEMS,
        ensures
            final(out)@ == old(out)@ + self.row_label(i as int, *config),
    {
        let ghost start = out@;
        push(out, "\n                <text x=\"");
        push_num(out, ICON_OFFSET);
        push(out, "\" y=\"");
        push_num(out, TEXT_Y);
        push(out, "\" fill=\"");
        push(out, config.theme.text);
        push(out, "\" font-size=\"");
        push_num(out, FONT_SIZE);
        push(out, "\">");
        push(out, label_of(i));
        push(out, ": </text>");
        assert(out@ =~= start + self.row_label(i as int, *config));
    }

    fn push_row_value(&self, out: &mut String, i: usize, config: &RenderConfig)
        requires
            i < NUM_ITEMS,
        ensures
            final(out)@ == old(out)@ + self.row_value(i as int, *config),
    {
        let ghost start = out@;
        push(out, "\n                <text x=\"");
        push_num(out, self.column_width_of(i % 2));
        push(out, "\" y=\"");
        push_num(out, TEXT_Y);
        push(out, "\" fill=\"");
        push(out, config.theme.text);
        push(out, "\" font-size=\"");
        push_num(out, FONT_SIZE);
        push(out, "\" font-weight=\"bold\" text-anchor=\"end\">");
        let number = format_number(self.value_at(i));
        push(out, number.as_str());
        push(out, "</text>\n            </g>");
        assert(out@ =~= start + self.row_value(i as int, *config));
    }
}

fn max3_of(a: u128, b: u128, c: u128) -> (r: u128)
    ensures
        r == max3(a as nat, b as nat, c as nat),
{
    if a >= b && a >= c {
        a
    } else if b >= c {
        b
    } else {
        c
    }
}

fn label_of(i: usize) -> (r: &'static str)
    ensures
        r == label(i as int),
{
    if i == 0 {
        "Total Stars"
    } else if i == 1 {
        "Total Forks"
    } else if i == 2 {
        "Total Commits"
    } else if i == 3 {
        "Total PRs"
    } else if i == 4 {
        "Total Issues"
    } else {
        "Merged PRs (ext)"
    }
}

fn glyph_of(i: usize) -> (r: &'static str)
    ensures
        r == glyph(i as int),
{
    if i == 0 {
        icons::STAR
    } else if i == 1 {
        icons::FORK
    } else if i == 2 {
        icons::COMMIT
    } else if i == 3 {
        icons::PULL_REQUEST
    } else if i == 4 {
        icons::ISSUE
    } else {
        icons::CONTRIBUTION
    }
}

fn label_width_of(col: usize) -> (r: u128)
    requires
        col < 2,
    ensures
        r == label_width(col as int),
        r <= 16,
{
    proof {
        reveal_strlit("Total Stars");
        reveal_strlit("Total Forks");
        reveal_strlit("Total Commits");
        reveal_strlit("Total PRs");
        reveal_strlit("Total Issues");
        reveal_strlit("Merged PRs (ext)");
    }
    max3_of(
        label_of(col).unicode_len() as u128,
        label_of(col + 2).unicode_len() as u128,
        label_of(col + 4).unicode_len() as u128,
    )
}

impl Tile for Statistics {
    open spec fn ready(&self) -> bool {
        true
    }

    open spec fn tile_name(&self) -> Seq<char> {
        "statistics"@
    }

    open spec fn document(&self, config: RenderConfig) -> Seq<char> {
        self.statistics_document(config)
    }

    fn name(&self) -> (r: &'static str) {
        "statistics"
    }

    fn render(&self, config: &RenderConfig) -> (r: String) {
        let col0 = self.column_width_of(0);
        let col1 = self.column_width_of(1);
        let mut rows = String::new();
        let mut i: usize = 0;
        while i < NUM_ITEMS
            invariant
                i <= NUM_ITEMS,
                col0 == self.column_width(0),
                col0 <= 0x1_0000_0000_0000,
                rows@ == self.rows(*config, i as nat),
            decreases NUM_ITEMS - i,
        {
            self.push_row(&mut rows, i, config, col0);
            i += 1;
        }
        let width = col0 + COL_GAP + col1;
        let height = (NUM_ROWS - 1) * ROW_HEIGHT + CONTENT_HEIGHT;
        finish_tile(width, height, config, rows.as_str())
    }
}

} // verus!
