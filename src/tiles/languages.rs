//! The languages tile: a ranked legend beside a donut chart.

use super::{
    empty_document, empty_svg, finish_tile, num, push, push_num, tile_document, RenderConfig, Tile,
    FONT_SIZE_SMALL,
};
use crate::github::{LanguageEdge, Repository, User};
use crate::ranking::{
    is_ranking, key_sum, lemma_key_sum_element, lemma_key_sum_prefix, lemma_key_sum_take,
    lemma_key_sum_update, lists, ordered_keys, precedes, rank_desc,
};
use crate::svg::{decimal, digit, push_decimal, push_digit};
use vstd::prelude::*;
use vstd::string::*;

verus! {

/// Color of a language that the service gives none.
pub const DEFAULT_LANGUAGE_COLOR: &'static str = "#858585";

/// Language with byte count and color
pub struct LanguageEntry {
    pub name: String,
    pub bytes: u64,
    pub color: String,
}

/// Languages data extracted from GitHub user
pub struct Languages {
    pub languages: Vec<LanguageEntry>,
    pub total_bytes: u64,
    /// Direction of each sector boundary of the donut, filled in before
    /// rendering: boundary `i` is the start of sector `i` (the last one is the
    /// end of the last sector), at `start / turn` of a full turn clockwise
    /// from 12 o'clock, that is `-90 + 360 * start / turn` degrees in SVG
    /// coordinates (see [`Languages::sectors`]).
    pub chart: Vec<Direction>,
}

/// Number of languages on the tile.
pub const MAX_LANGUAGES: usize = 8;

// Donut chart
pub const DONUT_CX: u128 = 70;

pub const DONUT_CY: u128 = 70;

pub const DONUT_OUTER_RADIUS: u128 = 70;

pub const DONUT_INNER_RADIUS: u128 = 42;

// Legend
pub const LEGEND_ROW_HEIGHT: u128 = 16;

pub const LEGEND_ITEM_HEIGHT: u128 = 12;

pub const LEGEND_RECT_SIZE: u128 = 12;

pub const LEGEND_RECT_RADIUS: u128 = 2;

pub const LEGEND_TEXT_X: u128 = 18;

pub const LEGEND_TEXT_Y: u128 = 10;

pub const LEGEND_WIDTH: u128 = 140;

pub const LEGEND_DONUT_GAP: u128 = 10;

/// Fixed-point unit of a [`Direction`]: components are in billionths.
pub const UNIT: i64 = 1_000_000_000;

/// A point of the unit circle, `(cos a, sin a)` in billionths, for an angle
/// `a` measured in SVG coordinates (y grows downwards).
#[derive(Clone, Copy)]
pub struct Direction {
    pub cos: i64,
    pub sin: i64,
}

/// One donut sector: from `start / turn` to `end / turn` of a full turn,
/// clockwise from 12 o'clock. Its sweep is `360 * (end - start) / turn`
/// degrees, and `large_arc` tells whether that exceeds 180 degrees.
#[derive(Clone, Copy)]
pub struct Sector {
    pub start: u64,
    pub end: u64,
    pub turn: u64,
    pub large_arc: bool,
}

/// Language edges of `r`, none when it is a fork.
pub open spec fn repo_edges(r: Repository) -> Seq<LanguageEdge> {
    if r.is_fork {
        Seq::empty()
    } else {
        match r.languages {
            Some(c) => c.edges@,
            None => Seq::empty(),
        }
    }
}

/// Language edges of the repositories that are not forks, in order.
pub open spec fn own_edges(repos: Seq<Repository>) -> Seq<LanguageEdge>
    decreases repos.len(),
{
    if repos.len() == 0 {
        Seq::empty()
    } else {
        own_edges(repos.drop_last()) + repo_edges(repos.last())
    }
}

/// Bytes of all edges.
pub open spec fn size_total(es: Seq<LanguageEdge>) -> nat
    decreases es.len(),
{
    if es.len() == 0 {
        0
    } else {
        size_total(es.drop_last()) + es.last().size as nat
    }
}

/// Bytes of the edges of language `name`.
pub open spec fn language_bytes(es: Seq<LanguageEdge>, name: Seq<char>) -> nat
    decreases es.len(),
{
    if es.len() == 0 {
        0
    } else {
        language_bytes(es.drop_last(), name) + if es.last().node.name@ == name {
            es.last().size as nat
        } else {
            0
        }
    }
}

/// Position of the first edge of language `name`, or -1.
pub open spec fn first_seen(es: Seq<LanguageEdge>, name: Seq<char>) -> int
    decreases es.len(),
{
    if es.len() == 0 {
        -1
    } else if first_seen(es.drop_last(), name) >= 0 {
        first_seen(es.drop_last(), name)
    } else if es.last().node.name@ == name {
        es.len() - 1
    } else {
        -1
    }
}

pub open spec fn color_or_default(color: Option<String>) -> Seq<char> {
    match color {
        Some(c) => c@,
        None => DEFAULT_LANGUAGE_COLOR@,
    }
}

/// Color of language `name` where it is first seen.
pub open spec fn first_color(es: Seq<LanguageEdge>, name: Seq<char>) -> Seq<char> {
    color_or_default(es[first_seen(es, name)].node.color)
}

/// Whether some entry of `langs` is language `name`.
pub open spec fn has_language(langs: Seq<LanguageEntry>, name: Seq<char>) -> bool {
    exists|k: int| 0 <= k < langs.len() && langs[k].name@ == name
}

/// `langs` is the histogram of `es`: one entry per language, carrying its
/// summed bytes and first-seen color, largest first, ties in first-seen order.
pub open spec fn is_language_ranking(es: Seq<LanguageEdge>, langs: Seq<LanguageEntry>) -> bool {
    &&& forall|k: int, l: int|
        0 <= k < l < langs.len() ==> (#[trigger] langs[k]).name@ != (#[trigger] langs[l]).name@
    &&& forall|k: int|
        0 <= k < langs.len() ==> {
            &&& first_seen(es, (#[trigger] langs[k]).name@) >= 0
            &&& langs[k].bytes == language_bytes(es, langs[k].name@)
            &&& langs[k].color@ == first_color(es, langs[k].name@)
        }
    &&& forall|j: int| 0 <= j < es.len() ==> has_language(langs, (#[trigger] es[j]).node.name@)
    &&& forall|k: int, l: int|
        0 <= k < l < langs.len() ==> {
            ||| (#[trigger] langs[k]).bytes > (#[trigger] langs[l]).bytes
            ||| langs[k].bytes == langs[l].bytes && first_seen(es, langs[k].name@) < first_seen(
                es,
                langs[l].name@,
            )
        }
}

/// The bytes of the entries, in order.
pub open spec fn entry_bytes(langs: Seq<LanguageEntry>) -> Seq<u64> {
    langs.map_values(|e: LanguageEntry| e.bytes)
}

/// The histogram of the repositories of `user` that are not forks.
pub open spec fn languages_of(user: User, l: Languages) -> bool {
    let es = own_edges(user.repositories.nodes@);
    &&& is_language_ranking(es, l.languages@)
    &&& l.total_bytes == size_total(es)
    &&& key_sum(entry_bytes(l.languages@)) == l.total_bytes
}

/// Every entry of the histogram holds exactly the bytes of its language over
/// the repositories that are not forks, and the entries add up to the total,
/// which is every byte of those repositories.
pub proof fn lemma_language_totals(user: User, l: Languages)
    requires
        languages_of(user, l),
    ensures
        forall|k: int|
            0 <= k < l.languages@.len() ==> (#[trigger] l.languages@[k]).bytes == language_bytes(
                own_edges(user.repositories.nodes@),
                l.languages@[k].name@,
            ),
        key_sum(entry_bytes(l.languages@)) == l.total_bytes,
        l.total_bytes == size_total(own_edges(user.repositories.nodes@)),
{
}

/// Where a language is first seen.
pub proof fn lemma_first_seen(es: Seq<LanguageEdge>, name: Seq<char>)
    ensures
        -1 <= first_seen(es, name) < es.len(),
        first_seen(es, name) >= 0 ==> es[first_seen(es, name)].node.name@ == name,
        first_seen(es, name) >= 0 ==> forall|j: int|
            0 <= j < first_seen(es, name) ==> es[j].node.name@ != name,
        first_seen(es, name) == -1 ==> forall|j: int| 0 <= j < es.len() ==> es[j].node.name@ != name,
    decreases es.len(),
{
    if es.len() > 0 {
        let rest = es.drop_last();
        lemma_first_seen(rest, name);
        assert forall|j: int| 0 <= j < rest.len() implies rest[j] == es[j] by {}
    }
}

/// A prefix never holds more bytes than the whole.
pub proof fn lemma_size_total_prefix(es: Seq<LanguageEdge>, i: int)
    requires
        0 <= i <= es.len(),
    ensures
        size_total(es.take(i)) <= size_total(es),
    decreases es.len(),
{
    if i < es.len() {
        assert(es.drop_last().take(i) =~= es.take(i));
        lemma_size_total_prefix(es.drop_last(), i);
    } else {
        assert(es.take(i) =~= es);
    }
}

/// Appending a repository appends its edges.
proof fn lemma_own_edges_push(repos: Seq<Repository>, i: int)
    requires
        0 <= i < repos.len(),
    ensures
        own_edges(repos.take(i + 1)) == own_edges(repos.take(i)) + repo_edges(repos[i]),
{
    assert(repos.take(i + 1).drop_last() =~= repos.take(i));
}

/// References to the language edges of the repositories that are not forks.
fn own_edges_of<'a>(repos: &'a Vec<Repository>) -> (r: Vec<&'a LanguageEdge>)
    ensures
        r@.len() == own_edges(repos@).len(),
        forall|k: int| 0 <= k < r@.len() ==> *r@[k] == own_edges(repos@)[k],
{
    let mut out: Vec<&'a LanguageEdge> = Vec::new();
    let mut i: usize = 0;
    while i < repos.len()
        invariant
            i <= repos.len(),
            out@.len() == own_edges(repos@.take(i as int)).len(),
            forall|k: int| 0 <= k < out@.len() ==> *out@[k] == own_edges(repos@.take(i as int))[k],
        decreases repos.len() - i,
    {
        let repo = &repos[i];
        proof {
            lemma_own_edges_push(repos@, i as int);
        }
        if !repo.is_fork {
            match &repo.languages {
                Some(c) => {
                    let ghost before = own_edges(repos@.take(i as int));
                    let mut e: usize = 0;
                    while e < c.edges.len()
                        invariant
                            e <= c.edges.len(),
                            out@.len() == before.len() + e,
                            forall|k: int|
                                0 <= k < out@.len() ==> *out@[k] == (before + c.edges@.take(
                                    e as int,
                                ))[k],
                        decreases c.edges.len() - e,
                    {
                        out.push(&c.edges[e]);
                        proof {
                            assert(before + c.edges@.take(e + 1) =~= (before + c.edges@.take(
                                e as int,
                            )).push(c.edges@[e as int]));
                        }
                        e += 1;
                    }
                    assert(c.edges@.take(e as int) =~= c.edges@);
                },
                None => {
                    assert(own_edges(repos@.take(i + 1)) =~= own_edges(repos@.take(i as int)));
                },
            }
        } else {
            assert(own_edges(repos@.take(i + 1)) =~= own_edges(repos@.take(i as int)));
        }
        i += 1;
    }
    assert(repos@.take(i as int) =~= repos@);
    out
}

/// Position of language `name` among `names`.
fn find_language(names: &Vec<String>, name: &String) -> (r: Option<usize>)
    ensures
        r matches Some(j) ==> j < names.len() && names@[j as int]@ == name@,
        r is None ==> forall|k: int| 0 <= k < names.len() ==> names@[k]@ != name@,
{
    let mut j: usize = 0;
    while j < names.len()
        invariant
            j <= names.len(),
            forall|k: int| 0 <= k < j ==> names@[k]@ != name@,
        decreases names.len() - j,
    {
        if names[j] == *name {
            return Some(j);
        }
        j += 1;
    }
    None
}

fn color_or_default_of(color: &Option<String>) -> (r: String)
    ensures
        r@ == color_or_default(*color),
{
    match color {
        Some(c) => c.clone(),
        None => String::from_str(DEFAULT_LANGUAGE_COLOR),
    }
}

/// A language absent from the edges has no bytes.
proof fn lemma_language_bytes_absent(es: Seq<LanguageEdge>, name: Seq<char>)
    requires
        forall|j: int| 0 <= j < es.len() ==> es[j].node.name@ != name,
    ensures
        language_bytes(es, name) == 0,
    decreases es.len(),
{
    if es.len() > 0 {
        let rest = es.drop_last();
        assert forall|j: int| 0 <= j < rest.len() implies rest[j].node.name@ != name by {
            assert(rest[j] == es[j]);
        }
        lemma_language_bytes_absent(rest, name);
    }
}

/// Whether one of `names` is `name`.
spec fn named(names: Seq<String>, name: Seq<char>) -> bool {
    exists|k: int| 0 <= k < names.len() && names[k]@ == name
}

/// The languages of the edges `p`, in first-seen order, as parallel sequences.
spec fn tally(p: Seq<LanguageEdge>, names: Seq<String>, sizes: Seq<u64>, colors: Seq<String>) -> bool {
    &&& names.len() == sizes.len()
    &&& names.len() == colors.len()
    &&& forall|k: int, l: int| 0 <= k < l < names.len() ==> (#[trigger] names[k])@ != (#[trigger] names[l])@
    &&& forall|k: int|
        0 <= k < names.len() ==> {
            &&& 0 <= first_seen(p, (#[trigger] names[k])@)
            &&& sizes[k] == language_bytes(p, names[k]@)
            &&& colors[k]@ == first_color(p, names[k]@)
        }
    &&& forall|k: int, l: int|
        0 <= k < l < names.len() ==> first_seen(p, (#[trigger] names[k])@) < first_seen(
            p,
            (#[trigger] names[l])@,
        )
    &&& forall|j: int| 0 <= j < p.len() ==> named(names, (#[trigger] p[j]).node.name@)
    &&& key_sum(sizes) == size_total(p)
}

/// Ranking a tally by bytes gives the language ranking.
proof fn lemma_ranked_tally(
    es: Seq<LanguageEdge>,
    names: Seq<String>,
    sizes: Seq<u64>,
    colors: Seq<String>,
    order: Seq<usize>,
    langs: Seq<LanguageEntry>,
)
    requires
        tally(es, names, sizes, colors),
        is_ranking(sizes, order),
        langs.len() == order.len(),
        forall|m: int|
            0 <= m < langs.len() ==> {
                &&& (#[trigger] langs[m]).name@ == names[order[m] as int]@
                &&& langs[m].bytes == sizes[order[m] as int]
                &&& langs[m].color@ == colors[order[m] as int]@
            },
    ensures
        is_language_ranking(es, langs),
        entry_bytes(langs) == ordered_keys(sizes, order),
{
    assert forall|k: int, l: int| 0 <= k < l < langs.len() implies {
        &&& (#[trigger] langs[k]).name@ != (#[trigger] langs[l]).name@
        &&& {
            ||| langs[k].bytes > langs[l].bytes
            ||| langs[k].bytes == langs[l].bytes && first_seen(es, langs[k].name@) < first_seen(
                es,
                langs[l].name@,
            )
        }
    } by {
        let a = order[k] as int;
        let b = order[l] as int;
        assert(precedes(sizes, a, b));
        if a < b {
            assert(names[a]@ != names[b]@);
            assert(first_seen(es, names[a]@) < first_seen(es, names[b]@));
        } else {
            assert(names[b]@ != names[a]@);
        }
    }
    assert forall|j: int| 0 <= j < es.len() implies has_language(langs, (#[trigger] es[j]).node.name@) by {
        assert(named(names, es[j].node.name@));
        let k = choose|k: int| 0 <= k < names.len() && names[k]@ == es[j].node.name@;
        assert(lists(order, k));
        let m = choose|m: int| 0 <= m < order.len() && order[m] == k;
        assert(langs[m].name@ == es[j].node.name@);
    }
    assert(entry_bytes(langs) =~= ordered_keys(sizes, order));
}

impl Languages {
    /// Extracts the language histogram from `user`, or `None` when the bytes of
    /// all languages together exceed 64 bits.
    pub fn checked_from_user(user: &User) -> (r: Option<Self>)
        ensures
            r matches Some(l) ==> languages_of(*user, l),
            r is None <==> size_total(own_edges(user.repositories.nodes@)) > u64::MAX,
    {
        let edges = own_edges_of(&user.repositories.nodes);
        let ghost es = own_edges(user.repositories.nodes@);
        let mut names: Vec<String> = Vec::new();
        let mut sizes: Vec<u64> = Vec::new();
        let mut colors: Vec<String> = Vec::new();
        let mut total: u64 = 0;
        let mut t: usize = 0;
        while t < edges.len()
            invariant
                t <= edges.len(),
                es == own_edges(user.repositories.nodes@),
                edges@.len() == es.len(),
                forall|k: int| 0 <= k < edges@.len() ==> *edges@[k] == es[k],
                tally(es.take(t as int), names@, sizes@, colors@),
                total == size_total(es.take(t as int)),
            decreases edges.len() - t,
        {
            let edge = edges[t];
            let ghost p = es.take(t as int);
            let ghost p2 = es.take(t + 1);
            proof {
                assert(p2.drop_last() =~= p);
                assert(p2.last() == *edge);
            }
            total = match total.checked_add(edge.size) {
                Some(v) => v,
                None => {
                    proof {
                        assert(size_total(p2) == size_total(p) + edge.size);
                        lemma_size_total_prefix(es, t + 1);

                    }
                    return None;
                },
            };
            let ghost old_names = names@;
            let ghost old_sizes = sizes@;
            let ghost old_colors = colors@;
            match find_language(&names, &edge.node.name) {
                Some(j) => {
                    proof {
                        lemma_key_sum_element(sizes@, j as int);
                    }
                    let bytes = sizes[j] + edge.size;
                    sizes.set(j, bytes);
                    proof {
                        lemma_key_sum_update(old_sizes, j as int, bytes);
                        assert forall|k: int| 0 <= k < names.len() implies {
                            &&& 0 <= first_seen(p2, (#[trigger] names@[k])@)
                            &&& sizes@[k] == language_bytes(p2, names@[k]@)
                            &&& colors@[k]@ == first_color(p2, names@[k]@)
                        } by {
                            assert(0 <= first_seen(p, old_names[k]@));
                            lemma_first_seen(p, old_names[k]@);
                            if k != j {
                                assert(old_names[k]@ != old_names[j as int]@);
                            }
                        }
                        assert forall|i: int| 0 <= i < p2.len() implies named(
                            names@,
                            (#[trigger] p2[i]).node.name@,
                        ) by {
                            if i < t {
                                assert(p2[i] == p[i]);
                                assert(named(names@, p[i].node.name@));
                            } else {
                                assert(names@[j as int]@ == p2[i].node.name@);
                            }
                        }
                        assert forall|k: int, l: int| 0 <= k < l < names.len() implies first_seen(
                            p2,
                            (#[trigger] names@[k])@,
                        ) < first_seen(p2, (#[trigger] names@[l])@) by {
                            assert(0 <= first_seen(p, old_names[k]@));
                            assert(0 <= first_seen(p, old_names[l]@));
                        }
                    }
                },
                None => {
                    let name = edge.node.name.clone();
                    let color = color_or_default_of(&edge.node.color);
                    names.push(name);
                    sizes.push(edge.size);
                    colors.push(color);
                    proof {
                        let n = edge.node.name@;
                        lemma_first_seen(p, n);
                        if first_seen(p, n) >= 0 {
                            let f = first_seen(p, n);
                            assert(named(old_names, p[f].node.name@));
                        }
                        lemma_language_bytes_absent(p, n);
                        assert(sizes@.drop_last() =~= old_sizes);
                        assert forall|k: int| 0 <= k < names.len() implies {
                            &&& 0 <= first_seen(p2, (#[trigger] names@[k])@)
                            &&& sizes@[k] == language_bytes(p2, names@[k]@)
                            &&& colors@[k]@ == first_color(p2, names@[k]@)
                        } by {
                            if k < old_names.len() {
                                assert(names@[k] == old_names[k]);
                                assert(0 <= first_seen(p, old_names[k]@));
                                lemma_first_seen(p, old_names[k]@);
                                assert(old_names[k]@ != n);
                            }
                        }
                        assert forall|i: int| 0 <= i < p2.len() implies named(
                            names@,
                            (#[trigger] p2[i]).node.name@,
                        ) by {
                            if i < t {
                                assert(p2[i] == p[i]);
                                assert(named(old_names, p[i].node.name@));
                                let k = choose|k: int|
                                    0 <= k < old_names.len() && old_names[k]@ == p[i].node.name@;
                                assert(names@[k] == old_names[k]);
                            } else {
                                assert(names@[old_names.len() as int]@ == n);
                            }
                        }
                        assert forall|k: int, l: int| 0 <= k < l < names.len() implies first_seen(
                            p2,
                            (#[trigger] names@[k])@,
                        ) < first_seen(p2, (#[trigger] names@[l])@) by {
                            assert(names@[k] == old_names[k]);
                            assert(0 <= first_seen(p, old_names[k]@));
                            lemma_first_seen(p, old_names[k]@);
                            if l < old_names.len() {
                                assert(names@[l] == old_names[l]);
                            }
                        }
                        assert forall|k: int, l: int| 0 <= k < l < names.len() implies (
                        #[trigger] names@[k])@ != (#[trigger] names@[l])@ by {
                            if l < old_names.len() {
                                assert(names@[l] == old_names[l]);
                                assert(names@[k] == old_names[k]);
                            }
                        }
                    }
                },
            }
            t += 1;
        }
        proof {
            assert(es.take(t as int) =~= es);
        }
        let order = rank_desc(&sizes);
        let mut langs: Vec<LanguageEntry> = Vec::new();
        let mut i: usize = 0;
        while i < order.len()
            invariant
                i <= order.len(),
                is_ranking(sizes@, order@),
                names.len() == sizes.len(),
                colors.len() == sizes.len(),
                langs@.len() == i,
                forall|m: int|
                    0 <= m < i ==> {
                        &&& (#[trigger] langs@[m]).name@ == names@[order@[m] as int]@
                        &&& langs@[m].bytes == sizes@[order@[m] as int]
                        &&& langs@[m].color@ == colors@[order@[m] as int]@
                    },
            decreases order.len() - i,
        {
            let k = order[i];
            langs.push(
                LanguageEntry { name: names[k].clone(), bytes: sizes[k], color: colors[k].clone() },
            );
            i += 1;
        }
        proof {
            lemma_ranked_tally(es, names@, sizes@, colors@, order@, langs@);
        }
        Some(Languages { languages: langs, total_bytes: total, chart: Vec::new() })
    }

    /// Extracts the language histogram from `user`: for every language of the
    /// repositories that are not forks, its bytes summed and its first-seen
    /// color, largest first, ties in first-seen order.
    pub fn from_user(user: &User) -> (r: Self)
        requires
            size_total(own_edges(user.repositories.nodes@)) <= u64::MAX,
        ensures
            languages_of(*user, r),
    {
        Self::checked_from_user(user).unwrap()
    }
}

/// Percentage of `bytes` in `total`, in tenths, rounded half up; 0 when
/// `total` is 0.
pub open spec fn percent_tenths(bytes: nat, total: nat) -> nat {
    if total == 0 {
        0
    } else {
        (2000 * bytes + total) / (2 * total)
    }
}

/// A number of hundredths written with two decimals ("12.05").
pub open spec fn hundredths_text(h: nat) -> Seq<char> {
    decimal(h / 100).push('.').push(digit((h / 10) % 10)).push(digit(h % 10))
}

/// A number of tenths written with one decimal ("12.5").
pub open spec fn tenths_text(t: nat) -> Seq<char> {
    decimal(t / 10).push('.').push(digit(t % 10))
}

/// Whether a direction lies within the unit square.
pub open spec fn direction_ok(d: Direction) -> bool {
    -UNIT <= d.cos <= UNIT && -UNIT <= d.sin <= UNIT
}

/// `center + radius * component / UNIT`, in hundredths, rounded half up.
pub open spec fn coordinate(center: int, radius: int, component: int) -> int {
    (center * UNIT + radius * component + UNIT / 200) / (UNIT / 100)
}

/// The point at `radius` from the donut center in direction `d`.
pub open spec fn point_text(radius: int, d: Direction) -> Seq<char> {
    hundredths_text(coordinate(DONUT_CX as int, radius, d.cos as int) as nat) + " "@
        + hundredths_text(coordinate(DONUT_CY as int, radius, d.sin as int) as nat)
}

/// An arc of the circle of `radius` from direction `from` to direction `to`.
pub open spec fn arc_text(
    radius: int,
    from: Direction,
    to: Direction,
    large_arc: Seq<char>,
    sweep: Seq<char>,
) -> Seq<char> {
    point_text(radius, from) + " A "@ + num(radius) + " "@ + num(radius) + " 0 "@ + large_arc + " "@
        + sweep + " "@ + point_text(radius, to)
}

impl Languages {
    /// The entries are consistent with the total.
    pub open spec fn well_formed(self) -> bool {
        key_sum(entry_bytes(self.languages@)) == self.total_bytes
    }

    /// Number of languages shown.
    pub open spec fn shown(self) -> nat {
        if self.languages@.len() < MAX_LANGUAGES {
            self.languages@.len()
        } else {
            MAX_LANGUAGES as nat
        }
    }

    /// Bytes of the languages ranked before position `i`.
    pub open spec fn bytes_before(self, i: int) -> nat {
        key_sum(entry_bytes(self.languages@).take(i))
    }

    /// The denominator of the sectors: all bytes, or 1 when there are none.
    pub open spec fn turn(self) -> nat {
        if self.total_bytes == 0 {
            1
        } else {
            self.total_bytes as nat
        }
    }

    /// Sector of language `i`.
    pub open spec fn sector(self, i: int) -> Sector {
        Sector {
            start: self.bytes_before(i) as u64,
            end: self.bytes_before(i + 1) as u64,
            turn: self.turn() as u64,
            large_arc: 2 * self.languages@[i].bytes > self.turn(),
        }
    }

    /// Whether the tile can be drawn: a placeholder without languages, else a
    /// chart direction for every sector boundary.
    pub open spec fn chart_ready(self) -> bool {
        self.well_formed() && (self.languages@.len() == 0 || (self.chart@.len() == self.shown() + 1
            && forall|i: int| 0 <= i < self.chart@.len() ==> direction_ok(#[trigger] self.chart@[i])))
    }

    /// Donut sector of language `i`: the outer arc clockwise, a line to the
    /// inner circle, the inner arc back.
    pub open spec fn sector_path(self, i: int) -> Seq<char> {
        let flag = if self.sector(i).large_arc {
            "1"@
        } else {
            "0"@
        };
        "<path d=\"M "@ + arc_text(DONUT_OUTER_RADIUS as int, self.chart@[i], self.chart@[i + 1], flag, "1"@)
            + " L "@ + arc_text(DONUT_INNER_RADIUS as int, self.chart@[i + 1], self.chart@[i], flag, "0"@)
            + " Z\" fill=\""@ + self.languages@[i].color@ + "\"/>"@
    }

    /// The first `n` sectors.
    pub open spec fn sector_paths(self, n: nat) -> Seq<char>
        decreases n,
    {
        if n == 0 {
            Seq::empty()
        } else {
            self.sector_paths((n - 1) as nat) + self.sector_path(n - 1)
        }
    }

    /// Legend row of language `i`: swatch, name and percentage.
    pub open spec fn legend_row(self, i: int, config: RenderConfig) -> Seq<char> {
        self.legend_swatch(i) + self.legend_label(i, config)
    }

    /// Swatch of language `i`, opening its legend row.
    pub open spec fn legend_swatch(self, i: int) -> Seq<char> {
        "<g transform=\"translate(0, "@ + num(i * LEGEND_ROW_HEIGHT) + ")\">\n                <rect width=\""@
            + num(LEGEND_RECT_SIZE as int) + "\" height=\""@ + num(LEGEND_RECT_SIZE as int)
            + "\" rx=\""@ + num(LEGEND_RECT_RADIUS as int) + "\" fill=\""@
            + self.languages@[i].color@ + "\"/>"@
    }

    /// Name and percentage of language `i`, closing its legend row.
    pub open spec fn legend_label(self, i: int, config: RenderConfig) -> Seq<char> {
        let lang = self.languages@[i];
        "\n                <text x=\""@ + num(LEGEND_TEXT_X as int) + "\" y=\""@ + num(
            LEGEND_TEXT_Y as int,
        ) + "\" fill=\""@ + config.theme.text@ + "\" font-size=\""@ + num(FONT_SIZE_SMALL as int)
            + "\">"@ + lang.name@ + " <tspan fill=\""@ + config.theme.icon@ + "\">"@ + tenths_text(
            percent_tenths(lang.bytes as nat, self.total_bytes as nat),
        ) + "%</tspan></text>\n            </g>"@
    }

    /// The first `n` legend rows.
    pub open spec fn legend_rows(self, config: RenderConfig, n: nat) -> Seq<char>
        decreases n,
    {
        if n == 0 {
            Seq::empty()
        } else {
            self.legend_rows(config, (n - 1) as nat) + self.legend_row(n - 1, config)
        }
    }

    pub open spec fn legend_height(self) -> int {
        (self.shown() - 1) * LEGEND_ROW_HEIGHT + LEGEND_ITEM_HEIGHT
    }

    /// Height of the tile: the legend or the donut, whichever is taller.
    pub open spec fn tile_height(self) -> int {
        if self.legend_height() > 2 * DONUT_OUTER_RADIUS {
            self.legend_height()
        } else {
            (2 * DONUT_OUTER_RADIUS) as int
        }
    }

    /// The legend, centered vertically when shorter than the tile.
    pub open spec fn placed_legend(self, config: RenderConfig) -> Seq<char> {
        let offset = (self.tile_height() - self.legend_height()) / 2;
        let legend = self.legend_rows(config, self.shown());
        if offset > 0 {
            "<g transform=\"translate(0, "@ + num(offset) + ")\">"@ + legend + "</g>"@
        } else {
            legend
        }
    }

    /// Legend beside the donut, centered vertically.
    pub open spec fn languages_body(self, config: RenderConfig) -> Seq<char> {
        self.placed_legend(config) + "\n  <g transform=\"translate("@ + num(
            (LEGEND_WIDTH + LEGEND_DONUT_GAP) as int,
        ) + ", "@ + num((self.tile_height() - 2 * DONUT_OUTER_RADIUS) / 2) + ")\">\n    "@
            + self.sector_paths(self.shown()) + "\n  </g>"@
    }

    /// The languages document: a placeholder when there is no language.
    pub open spec fn languages_document(self, config: RenderConfig) -> Seq<char> {
        if self.languages@.len() == 0 {
            empty_document("No Languages Found"@, config.theme, config.opaque)
        } else {
            tile_document(
                (LEGEND_WIDTH + LEGEND_DONUT_GAP + 2 * DONUT_OUTER_RADIUS) as int,
                self.tile_height(),
                config,
                self.languages_body(config),
            )
        }
    }
}

/// Each sector sweeps its language's share: `end - start` is its bytes, so
/// its sweep is `360 * bytes / turn` degrees, and it is a large arc exactly
/// when that sweep exceeds 180 degrees. Consecutive sectors meet, the first
/// starts at 12 o'clock, and when every language is shown the last one ends a
/// full turn later: the sweeps add up to 360 degrees.
pub proof fn lemma_sector_sweeps(l: Languages)
    requires
        l.well_formed(),
    ensures
        forall|i: int|
            0 <= i < l.shown() ==> {
                &&& (#[trigger] l.sector(i)).end - l.sector(i).start == l.languages@[i].bytes
                &&& l.sector(i).turn == l.turn()
                &&& l.sector(i).large_arc <==> 360 * (l.sector(i).end - l.sector(i).start) > 180
                    * l.turn()
            },
        forall|i: int| 0 <= i < l.shown() - 1 ==> #[trigger] l.sector(i).end == l.sector(i + 1).start,
        l.shown() > 0 ==> l.sector(0).start == 0,
        l.shown() > 0 && l.shown() == l.languages@.len() && l.total_bytes > 0 ==> l.sector(
            l.shown() - 1,
        ).end == l.turn(),
{
    let bytes = entry_bytes(l.languages@);
    assert forall|i: int| 0 <= i <= l.languages@.len() implies l.bytes_before(i) <= l.total_bytes by {
        lemma_key_sum_prefix(bytes, i);
    }
    assert forall|i: int| 0 <= i < l.shown() implies {
        &&& (#[trigger] l.sector(i)).end - l.sector(i).start == l.languages@[i].bytes
        &&& l.sector(i).turn == l.turn()
        &&& l.sector(i).large_arc <==> 360 * (l.sector(i).end - l.sector(i).start) > 180 * l.turn()
    } by {
        lemma_key_sum_take(bytes, i);
        assert(l.bytes_before(i + 1) <= l.total_bytes);
    }
    assert(bytes.take(0) =~= Seq::<u64>::empty());
    assert(bytes.take(l.languages@.len() as int) =~= bytes);
}

/// Appends a number of hundredths with two decimals.
fn push_hundredths(out: &mut String, h: u128)
    ensures
        final(out)@ == old(out)@ + hundredths_text(h as nat),
{
    let ghost start = out@;
    push_decimal(out, h / 100);
    push(out, ".");
    push_digit(out, (h / 10) % 10);
    push_digit(out, h % 10);
    proof {
        reveal_strlit(".");
    }
    assert(out@ =~= start + hundredths_text(h as nat));
}

/// Appends a number of tenths with one decimal.
fn push_tenths(out: &mut String, t: u128)
    ensures
        final(out)@ == old(out)@ + tenths_text(t as nat),
{
    let ghost start = out@;
    push_decimal(out, t / 10);
    push(out, ".");
    push_digit(out, t % 10);
    proof {
        reveal_strlit(".");
    }
    assert(out@ =~= start + tenths_text(t as nat));
}

/// `center + radius * component / UNIT` in hundredths, rounded half up.
fn coordinate_of(center: u128, radius: u128, component: i64) -> (r: u128)
    requires
        center == 70,
        radius <= 70,
        -UNIT <= component <= UNIT,
    ensures
        r == coordinate(center as int, radius as int, component as int),
{
    assert(-70 * UNIT <= radius * component <= 70 * UNIT) by (nonlinear_arith)
        requires
            radius <= 70,
            -UNIT <= component <= UNIT,
    ;
    let offset: i128 = radius as i128 * component as i128;
    let scaled: i128 = center as i128 * UNIT as i128 + (UNIT / 200) as i128 + offset;
    (scaled as u128) / (UNIT / 100) as u128
}

/// Appends the point at `radius` from the donut center in direction `d`.
fn push_point(out: &mut String, radius: u128, d: Direction)
    requires
        radius <= 70,
        direction_ok(d),
    ensures
        final(out)@ == old(out)@ + point_text(radius as int, d),
{
    let ghost start = out@;
    push_hundredths(out, coordinate_of(DONUT_CX, radius, d.cos));
    push(out, " ");
    push_hundredths(out, coordinate_of(DONUT_CY, radius, d.sin));
    assert(out@ =~= start + point_text(radius as int, d));
}

/// Appends the arc of the circle of `radius` from `from` to `to`.
fn push_arc(out: &mut String, radius: u128, from: Direction, to: Direction, large_arc: &str, sweep: &str)
    requires
        radius <= 70,
        direction_ok(from),
        direction_ok(to),
    ensures
        final(out)@ == old(out)@ + arc_text(radius as int, from, to, large_arc@, sweep@),
{
    let ghost start = out@;
    push_point(out, radius, from);
    push(out, " A ");
    push_num(out, radius);
    push(out, " ");
    push_num(out, radius);
    push(out, " 0 ");
    push(out, large_arc);
    push(out, " ");
    push(out, sweep);
    push(out, " ");
    push_point(out, radius, to);
    assert(out@ =~= start + arc_text(radius as int, from, to, large_arc@, sweep@));
}

impl Languages {
    /// The donut sectors of the languages shown: each covers its share of
    /// all bytes, one after the other, clockwise from 12 o'clock.
    pub fn sectors(&self) -> (r: Vec<Sector>)
        requires
            self.well_formed(),
        ensures
            r@.len() == self.shown(),
            forall|i: int| 0 <= i < r@.len() ==> #[trigger] r@[i] == self.sector(i),
    {
        let n = if self.languages.len() < MAX_LANGUAGES {
            self.languages.len()
        } else {
            MAX_LANGUAGES
        };
        let turn = if self.total_bytes == 0 {
            1
        } else {
            self.total_bytes
        };
        let ghost bytes = entry_bytes(self.languages@);
        let mut out: Vec<Sector> = Vec::new();
        let mut before: u64 = 0;
        let mut i: usize = 0;
        while i < n
            invariant
                n == self.shown(),
                n <= self.languages@.len(),
                bytes == entry_bytes(self.languages@),
                key_sum(bytes) == self.total_bytes,
                turn == self.turn(),
                i <= n,
                before == self.bytes_before(i as int),
                out@.len() == i,
                forall|k: int| 0 <= k < i ==> #[trigger] out@[k] == self.sector(k),
            decreases n - i,
        {
            let b = self.languages[i].bytes;
            proof {
                assert(bytes[i as int] == b);
                lemma_key_sum_take(bytes, i as int);
                lemma_key_sum_prefix(bytes, i + 1);
            }
            let after = before + b;
            out.push(Sector { start: before, end: after, turn, large_arc: 2 * (b as u128) > turn as u128 });
            before = after;
            i += 1;
        }
        out
    }

    fn push_sector_path(&self, out: &mut String, i: usize, sector: Sector)
        requires
            self.chart_ready(),
            i < self.shown(),
            sector == self.sector(i as int),
        ensures
            final(out)@ == old(out)@ + self.sector_path(i as int),
    {
        let ghost start = out@;
        let flag = if sector.large_arc {
            "1"
        } else {
            "0"
        };
        let from = self.chart[i];
        let to = self.chart[i + 1];
        push(out, "<path d=\"M ");
        push_arc(out, DONUT_OUTER_RADIUS, from, to, flag, "1");
        push(out, " L ");
        push_arc(out, DONUT_INNER_RADIUS, to, from, flag, "0");
        push(out, " Z\" fill=\"");
        push(out, self.languages[i].color.as_str());
        push(out, "\"/>");
        assert(out@ =~= start + self.sector_path(i as int));
    }

    fn push_legend_row(&self, out: &mut String, i: usize, config: &RenderConfig)
        requires
            i < self.languages@.len(),
        ensures
            final(out)@ == old(out)@ + self.legend_row(i as int, *config),
    {
        let ghost start = out@;
        self.push_legend_swatch(out, i);
        self.push_legend_label(out, i, config);
        assert(out@ =~= start + self.legend_row(i as int, *config));
    }

    fn push_legend_swatch(&self, out: &mut String, i: usize)
        requires
            i < self.languages@.len(),
        ensures
            final(out)@ == old(out)@ + self.legend_swatch(i as int),
    {
        let ghost start = out@;
        push(out, "<g transform=\"translate(0, ");
        push_num(out, i as u128 * LEGEND_ROW_HEIGHT);
        push(out, ")\">\n                <rect width=\"");
        push_num(out, LEGEND_RECT_SIZE);
        push(out, "\" height=\"");
        push_num(out, LEGEND_RECT_SIZE);
        push(out, "\" rx=\"");
        push_num(out, LEGEND_RECT_RADIUS);
        push(out, "\" fill=\"");
        push(out, self.languages[i].color.as_str());
        push(out, "\"/>");
        assert(out@ =~= start + self.legend_swatch(i as int));
    }

    fn push_legend_label(&self, out: &mut String, i: usize, config: &RenderConfig)
        requires
            i < self.languages@.len(),
        ensures
            final(out)@ == old(out)@ + self.legend_label(i as int, *config),
    {
        let ghost start = out@;
        let lang = &self.languages[i];
        let tenths = percent_tenths_of(lang.bytes, self.total_bytes);
        push(out, "\n                <text x=\"");
        push_num(out, LEGEND_TEXT_X);
        push(out, "\" y=\"");
        push_num(out, LEGEND_TEXT_Y);
        push(out, "\" fill=\"");
        push(out, config.theme.text);
        push(out, "\" font-size=\"");
        push_num(out, FONT_SIZE_SMALL);
        push(out, "\">");
        push(out, lang.name.as_str());
        push(out, " <tspan fill=\"");
        push(out, config.theme.icon);
        push(out, "\">");
        push_tenths(out, tenths);
        push(out, "%</tspan></text>\n            </g>");
        assert(out@ =~= start + self.legend_label(i as int, *config));
    }
}

/// Percentage of `bytes` in `total`, in tenths.
fn percent_tenths_of(bytes: u64, total: u64) -> (r: u128)
    ensures
        r == percent_tenths(bytes as nat, total as nat),
{
    if total == 0 {
        0
    } else {
        (2000 * bytes as u128 + total as u128) / (2 * total as u128)
    }
}

impl Tile for Languages {
    open spec fn ready(&self) -> bool {
        self.chart_ready()
    }

    open spec fn tile_name(&self) -> Seq<char> {
        "languages"@
    }

    open spec fn document(&self, config: RenderConfig) -> Seq<char> {
        self.languages_document(config)
    }

    fn name(&self) -> (r: &'static str) {
        "languages"
    }

    fn render(&self, config: &RenderConfig) -> (r: String) {
        if self.languages.len() == 0 {
            return empty_svg("No Languages Found", config.theme, config.opaque);
        }
        let sectors = self.sectors();
        let n = sectors.len();
        let mut paths = String::new();
        let mut legend = String::new();
        let mut i: usize = 0;
        while i < n
            invariant
                self.chart_ready(),
                n == self.shown(),
                sectors@.len() == n,
                forall|k: int| 0 <= k < n ==> #[trigger] sectors@[k] == self.sector(k),
                i <= n,
                paths@ == self.sector_paths(i as nat),
                legend@ == self.legend_rows(*config, i as nat),
            decreases n - i,
        {
            self.push_sector_path(&mut paths, i, sectors[i]);
            self.push_legend_row(&mut legend, i, config);
            i += 1;
        }
        let legend_height = (n - 1) as u128 * LEGEND_ROW_HEIGHT + LEGEND_ITEM_HEIGHT;
        let donut_diameter = 2 * DONUT_OUTER_RADIUS;
        let height = if legend_height > donut_diameter {
            legend_height
        } else {
            donut_diameter
        };
        let width = LEGEND_WIDTH + LEGEND_DONUT_GAP + donut_diameter;
        let legend_offset = (height - legend_height) / 2;
        let mut body = String::new();
        if legend_offset > 0 {
            push(&mut body, "<g transform=\"translate(0, ");
            push_num(&mut body, legend_offset);
            push(&mut body, ")\">");
            push(&mut body, legend.as_str());
            push(&mut body, "</g>");
        } else {
            push(&mut body, legend.as_str());
        }
        push(&mut body, "\n  <g transform=\"translate(");
        push_num(&mut body, LEGEND_WIDTH + LEGEND_DONUT_GAP);
        push(&mut body, ", ");
        push_num(&mut body, (height - donut_diameter) / 2);
        push(&mut body, ")\">\n    ");
        push(&mut body, paths.as_str());
        push(&mut body, "\n  </g>");
        assert(body@ =~= self.languages_body(*config));
        finish_tile(width, height, config, body.as_str())
    }
}

} // verus!
