//! The contributions tile: external repositories that merged the account's
//! pull requests, ranked by stars.

use super::{
    empty_document, empty_svg, finish_tile, num, push, push_num, tile_document, RenderConfig, Tile,
    CHAR_WIDTH_HALVES, FONT_SIZE, FONT_SIZE_SMALL,
};
use crate::github::{MergedPullRequest, User};
use crate::icons;
use crate::svg::{format_number, formatted_number};
use crate::ranking::{is_ranking, lists, precedes, rank_desc};
use vstd::prelude::*;
use vstd::string::*;

verus! {

/// Number of repositories kept on the tile unless told otherwise.
pub const MAX_CONTRIBUTIONS: usize = 10;

// Layout
pub const ROW_HEIGHT: u128 = 24;

pub const AVATAR_SIZE: u128 = 20;

pub const AVATAR_TEXT_GAP: u128 = 8;

pub const REPO_STAR_GAP: u128 = 15;

pub const STAR_AREA_WIDTH: u128 = 60;

pub const TEXT_Y: u128 = 14;

pub const STAR_ICON_X_OFFSET: u128 = 18;

pub const STAR_ICON_Y_OFFSET: u128 = 4;

/// A repository contribution entry
pub struct ContributionEntry {
    pub owner: String,
    pub repo: String,
    pub stars: u32,
    /// The owner's avatar: its URL until it is fetched, then an embedded image,
    /// or nothing when the fetch failed.
    pub avatar_data: Option<String>,
}

/// Contributions data extracted from GitHub user
pub struct Contributions {
    pub repos: Vec<ContributionEntry>,
}

/// What `str::to_lowercase` makes of a string.
pub uninterp spec fn lower_of(s: Seq<char>) -> Seq<char>;

/// Relies on `str::to_lowercase`: the lowercase mapping of each character,
/// which depends on the characters alone.
#[verifier::external_body]
fn lowercase(s: &str) -> (r: String)
    ensures
        r@ == lower_of(s@),
{
    s.to_lowercase()
}

/// Identity of the repository a pull request was merged into.
pub open spec fn repo_key(pr: MergedPullRequest) -> (Seq<char>, Seq<char>) {
    (pr.repository.owner.login@, pr.repository.name@)
}

/// Identity of an entry.
pub open spec fn entry_key(e: ContributionEntry) -> (Seq<char>, Seq<char>) {
    (e.owner@, e.repo@)
}

/// Position of the first of the first `n` pull requests that is not `own` and
/// targets `key`, or -1.
pub open spec fn first_external_before(
    prs: Seq<MergedPullRequest>,
    own: Seq<bool>,
    key: (Seq<char>, Seq<char>),
    n: nat,
) -> int
    decreases n,
{
    if n == 0 {
        -1
    } else if first_external_before(prs, own, key, (n - 1) as nat) >= 0 {
        first_external_before(prs, own, key, (n - 1) as nat)
    } else if !own[n - 1] && repo_key(prs[n - 1]) == key {
        n - 1
    } else {
        -1
    }
}

/// Position of the first pull request that is not `own` and targets `key`, or -1.
pub open spec fn first_external(
    prs: Seq<MergedPullRequest>,
    own: Seq<bool>,
    key: (Seq<char>, Seq<char>),
) -> int {
    first_external_before(prs, own, key, prs.len())
}

/// Whether some entry of `entries` is the repository `key`.
pub open spec fn has_entry(entries: Seq<ContributionEntry>, key: (Seq<char>, Seq<char>)) -> bool {
    exists|m: int| 0 <= m < entries.len() && entry_key(entries[m]) == key
}

/// Entry `e` is its repository as first seen among the pull requests that are not `own`.
pub open spec fn first_seen_entry(
    prs: Seq<MergedPullRequest>,
    own: Seq<bool>,
    e: ContributionEntry,
) -> bool {
    let f = first_external(prs, own, entry_key(e));
    &&& 0 <= f
    &&& e.stars == prs[f].repository.stargazer_count
    &&& e.avatar_data matches Some(url) && url@ == prs[f].repository.owner.avatar_url@
}

/// Whether `a` ranks before `b`: more stars, or as many and seen earlier.
pub open spec fn ranks_before(
    prs: Seq<MergedPullRequest>,
    own: Seq<bool>,
    a: ContributionEntry,
    b: ContributionEntry,
) -> bool {
    ||| a.stars > b.stars
    ||| a.stars == b.stars && first_external(prs, own, entry_key(a)) < first_external(
        prs,
        own,
        entry_key(b),
    )
}

/// `entries` holds one entry per repository targeted by a pull request that is
/// not `own`, as first seen, ranked by stars, ties in first-seen order.
pub open spec fn is_contribution_ranking(
    prs: Seq<MergedPullRequest>,
    own: Seq<bool>,
    entries: Seq<ContributionEntry>,
) -> bool {
    &&& forall|k: int, l: int|
        0 <= k < l < entries.len() ==> entry_key(#[trigger] entries[k]) != entry_key(
            #[trigger] entries[l],
        )
    &&& forall|k: int| 0 <= k < entries.len() ==> first_seen_entry(prs, own, #[trigger] entries[k])
    &&& forall|j: int| 0 <= j < prs.len() && !own[j] ==> has_entry(entries, repo_key(#[trigger] prs[j]))
    &&& forall|k: int, l: int|
        0 <= k < l < entries.len() ==> ranks_before(prs, own, #[trigger] entries[k], #[trigger] entries[l])
}

/// `repos` is the top `limit` of the ranking of the repositories that the
/// pull requests which are not `own` target.
pub open spec fn top_contributions(
    prs: Seq<MergedPullRequest>,
    own: Seq<bool>,
    limit: nat,
    repos: Seq<ContributionEntry>,
) -> bool {
    exists|ranking: Seq<ContributionEntry>|
        is_contribution_ranking(prs, own, ranking) && repos == ranking.take(
            if ranking.len() < limit {
                ranking.len() as int
            } else {
                limit as int
            },
        )
}

/// Which pull requests target a repository of the account itself: those whose
/// owner matches `login` once both are lowercased.
pub open spec fn own_flags(prs: Seq<MergedPullRequest>, login: Seq<char>) -> Seq<bool> {
    Seq::new(prs.len(), |i: int| lower_of(prs[i].repository.owner.login@) == lower_of(login))
}

/// The same flags from owners and login already lowercased.
pub open spec fn folded_flags(folded_owners: Seq<String>, folded_login: Seq<char>) -> Seq<bool> {
    Seq::new(folded_owners.len(), |i: int| folded_owners[i]@ == folded_login)
}

/// Where a repository is first seen.
pub proof fn lemma_first_external(
    prs: Seq<MergedPullRequest>,
    own: Seq<bool>,
    key: (Seq<char>, Seq<char>),
    n: nat,
)
    requires
        n <= prs.len(),
        n <= own.len(),
    ensures
        -1 <= first_external_before(prs, own, key, n) < n,
        first_external_before(prs, own, key, n) >= 0 ==> {
            let f = first_external_before(prs, own, key, n);
            &&& !own[f]
            &&& repo_key(prs[f]) == key
            &&& forall|j: int| 0 <= j < f ==> own[j] || repo_key(prs[j]) != key
        },
        first_external_before(prs, own, key, n) == -1 ==> forall|j: int|
            0 <= j < n ==> own[j] || repo_key(prs[j]) != key,
    decreases n,
{
    if n > 0 {
        lemma_first_external(prs, own, key, (n - 1) as nat);
    }
}

/// Repository `k` of a tally.
spec fn key_at(owners: Seq<String>, names: Seq<String>, k: int) -> (Seq<char>, Seq<char>) {
    (owners[k]@, names[k]@)
}

/// Two merged pull requests into the same repository, neither of them into
/// the account's own, give exactly one entry of the ranking, and it carries
/// the stars of the first such pull request.
pub proof fn lemma_one_entry_per_repository(
    prs: Seq<MergedPullRequest>,
    own: Seq<bool>,
    ranking: Seq<ContributionEntry>,
    i: int,
    j: int,
)
    requires
        own.len() == prs.len(),
        is_contribution_ranking(prs, own, ranking),
        0 <= i < j < prs.len(),
        !own[i],
        !own[j],
        repo_key(prs[i]) == repo_key(prs[j]),
    ensures
        exists|m: int|
            0 <= m < ranking.len() && entry_key(ranking[m]) == repo_key(prs[i]) && ranking[m].stars
                == prs[first_external(prs, own, repo_key(prs[i]))].repository.stargazer_count
                && first_external(prs, own, repo_key(prs[i])) <= i && forall|o: int|
                0 <= o < ranking.len() && o != m ==> entry_key(#[trigger] ranking[o]) != repo_key(
                    prs[i],
                ),
{
    let key = repo_key(prs[i]);
    assert(has_entry(ranking, repo_key(prs[i])));
    let m = choose|m: int| 0 <= m < ranking.len() && entry_key(ranking[m]) == key;
    assert(first_seen_entry(prs, own, ranking[m]));
    lemma_first_external(prs, own, key, prs.len());
    assert forall|o: int| 0 <= o < ranking.len() && o != m implies entry_key(
        #[trigger] ranking[o],
    ) != key by {
        if o < m {
            assert(entry_key(ranking[o]) != entry_key(ranking[m]));
        } else {
            assert(entry_key(ranking[m]) != entry_key(ranking[o]));
        }
    }
}

/// The top entries name each repository once, with the stars and avatar
/// seen first, in ranking order, and there are at most `limit` of them.
pub proof fn lemma_top_entries(
    prs: Seq<MergedPullRequest>,
    own: Seq<bool>,
    limit: nat,
    repos: Seq<ContributionEntry>,
)
    requires
        top_contributions(prs, own, limit, repos),
    ensures
        repos.len() <= limit,
        forall|k: int, l: int|
            0 <= k < l < repos.len() ==> entry_key(#[trigger] repos[k]) != entry_key(#[trigger] repos[l])
                && ranks_before(prs, own, repos[k], repos[l]),
        forall|k: int| 0 <= k < repos.len() ==> first_seen_entry(prs, own, #[trigger] repos[k]),
{
    let ranking = choose|ranking: Seq<ContributionEntry>|
        is_contribution_ranking(prs, own, ranking) && repos == ranking.take(
            if ranking.len() < limit {
                ranking.len() as int
            } else {
                limit as int
            },
        );
    assert forall|k: int| 0 <= k < repos.len() implies first_seen_entry(prs, own, #[trigger] repos[k]) by {
        assert(repos[k] == ranking[k]);
    }
    assert forall|k: int, l: int| 0 <= k < l < repos.len() implies entry_key(#[trigger] repos[k])
        != entry_key(#[trigger] repos[l]) && ranks_before(prs, own, repos[k], repos[l]) by {
        assert(repos[k] == ranking[k]);
        assert(repos[l] == ranking[l]);
    }
}

/// A merged pull request into a repository whose owner is the account, in
/// any letter case, never gives an entry.
pub proof fn lemma_own_repositories_excluded(
    prs: Seq<MergedPullRequest>,
    login: Seq<char>,
    limit: nat,
    repos: Seq<ContributionEntry>,
)
    requires
        top_contributions(prs, own_flags(prs, login), limit, repos),
    ensures
        forall|k: int| 0 <= k < repos.len() ==> lower_of((#[trigger] repos[k]).owner@) != lower_of(login),
{
    let own = own_flags(prs, login);
    lemma_top_entries(prs, own, limit, repos);
    assert forall|k: int| 0 <= k < repos.len() implies lower_of((#[trigger] repos[k]).owner@) != lower_of(
        login,
    ) by {
        assert(first_seen_entry(prs, own, repos[k]));
        lemma_first_external(prs, own, entry_key(repos[k]), prs.len());
        let f = first_external(prs, own, entry_key(repos[k]));
        assert(!own[f]);
        assert(prs[f].repository.owner.login@ == repos[k].owner@);
    }
}

/// Whether one of the tallied repositories is `key`.
spec fn tallied(owners: Seq<String>, names: Seq<String>, key: (Seq<char>, Seq<char>)) -> bool {
    exists|k: int| 0 <= k < owners.len() && key_at(owners, names, k) == key
}

/// The repositories targeted by the first `n` pull requests that are not
/// `own`, in first-seen order, as parallel sequences.
spec fn tally(
    prs: Seq<MergedPullRequest>,
    own: Seq<bool>,
    n: nat,
    owners: Seq<String>,
    names: Seq<String>,
    stars: Seq<u64>,
    avatars: Seq<String>,
) -> bool {
    &&& owners.len() == names.len()
    &&& owners.len() == stars.len()
    &&& owners.len() == avatars.len()
    &&& forall|k: int, l: int|
        0 <= k < l < owners.len() ==> #[trigger] key_at(owners, names, k) != #[trigger] key_at(
            owners,
            names,
            l,
        )
    &&& forall|k: int|
        0 <= k < owners.len() ==> {
            let f = first_external_before(prs, own, #[trigger] key_at(owners, names, k), n);
            &&& 0 <= f
            &&& stars[k] == prs[f].repository.stargazer_count
            &&& avatars[k]@ == prs[f].repository.owner.avatar_url@
        }
    &&& forall|k: int, l: int|
        0 <= k < l < owners.len() ==> first_external_before(
            prs,
            own,
            #[trigger] key_at(owners, names, k),
            n,
        ) < first_external_before(prs, own, #[trigger] key_at(owners, names, l), n)
    &&& forall|j: int| 0 <= j < n && !own[j] ==> tallied(owners, names, repo_key(#[trigger] prs[j]))
}

/// Position of repository `key` among the tallied ones.
fn find_repo(owners: &Vec<String>, names: &Vec<String>, owner: &String, name: &String) -> (r: Option<usize>)
    requires
        owners.len() == names.len(),
    ensures
        r matches Some(k) ==> k < owners.len() && key_at(owners@, names@, k as int) == (owner@, name@),
        r is None ==> !tallied(owners@, names@, (owner@, name@)),
{
    let mut k: usize = 0;
    while k < owners.len()
        invariant
            k <= owners.len(),
            owners.len() == names.len(),
            forall|m: int| 0 <= m < k ==> key_at(owners@, names@, m) != (owner@, name@),
        decreases owners.len() - k,
    {
        if owners[k] == *owner && names[k] == *name {
            return Some(k);
        }
        k += 1;
    }
    None
}

/// Ranking a tally by stars gives the contribution ranking.
proof fn lemma_ranked_tally(
    prs: Seq<MergedPullRequest>,
    own: Seq<bool>,
    owners: Seq<String>,
    names: Seq<String>,
    stars: Seq<u64>,
    avatars: Seq<String>,
    order: Seq<usize>,
    entries: Seq<ContributionEntry>,
)
    requires
        own.len() == prs.len(),
        tally(prs, own, prs.len(), owners, names, stars, avatars),
        is_ranking(stars, order),
        entries.len() == order.len(),
        forall|m: int|
            0 <= m < entries.len() ==> {
                &&& entry_key(#[trigger] entries[m]) == key_at(owners, names, order[m] as int)
                &&& entries[m].stars == stars[order[m] as int]
                &&& entries[m].avatar_data matches Some(url) && url@ == avatars[order[m] as int]@
            },
    ensures
        is_contribution_ranking(prs, own, entries),
{
    assert forall|k: int, l: int| 0 <= k < l < entries.len() implies entry_key(
        #[trigger] entries[k],
    ) != entry_key(#[trigger] entries[l]) && ranks_before(prs, own, entries[k], entries[l]) by {
        let a = order[k] as int;
        let b = order[l] as int;
        assert(precedes(stars, a, b));
        if a < b {
            assert(key_at(owners, names, a) != key_at(owners, names, b));
        } else {
            assert(key_at(owners, names, b) != key_at(owners, names, a));
        }
    }
    assert forall|k: int| 0 <= k < entries.len() implies first_seen_entry(
        prs,
        own,
        #[trigger] entries[k],
    ) by {
        assert(key_at(owners, names, order[k] as int) == entry_key(entries[k]));
    }
    assert forall|j: int| 0 <= j < prs.len() && !own[j] implies has_entry(
        entries,
        repo_key(#[trigger] prs[j]),
    ) by {
        assert(tallied(owners, names, repo_key(prs[j])));
        let k = choose|k: int| 0 <= k < owners.len() && key_at(owners, names, k) == repo_key(prs[j]);
        assert(lists(order, k));
        let m = choose|m: int| 0 <= m < order.len() && order[m] == k;
        assert(entry_key(entries[m]) == repo_key(prs[j]));
    }
}

/// The top repositories targeted by the pull requests that are not `own`.
fn rank_external(prs: &Vec<MergedPullRequest>, own: &Vec<bool>, limit: usize) -> (r: Vec<
    ContributionEntry,
>)
    requires
        own.len() == prs.len(),
    ensures
        top_contributions(prs@, own@, limit as nat, r@),
{
    let mut owners: Vec<String> = Vec::new();
    let mut names: Vec<String> = Vec::new();
    let mut stars: Vec<u64> = Vec::new();
    let mut avatars: Vec<String> = Vec::new();
    let mut i: usize = 0;
    while i < prs.len()
        invariant
            i <= prs.len(),
            own.len() == prs.len(),
            tally(prs@, own@, i as nat, owners@, names@, stars@, avatars@),
        decreases prs.len() - i,
    {
        let pr = &prs[i];
        let ghost key = repo_key(prs@[i as int]);
        let ghost old_owners = owners@;
        let ghost old_names = names@;
        let ghost old_stars = stars@;
        let ghost old_avatars = avatars@;
        if !own[i] {
            match find_repo(&owners, &names, &pr.repository.owner.login, &pr.repository.name) {
                Some(_) => {},
                None => {
                    proof {
                        lemma_first_external(prs@, own@, key, i as nat);
                        if first_external_before(prs@, own@, key, i as nat) >= 0 {
                            let f = first_external_before(prs@, own@, key, i as nat);
                            assert(tallied(owners@, names@, repo_key(prs@[f])));
                        }
                    }
                    owners.push(pr.repository.owner.login.clone());
                    names.push(pr.repository.name.clone());
                    stars.push(pr.repository.stargazer_count as u64);
                    avatars.push(pr.repository.owner.avatar_url.clone());
                },
            }
        }
        proof {
            let n = (i + 1) as nat;
            let grew = owners.len() > old_owners.len();
            assert forall|k: int| 0 <= k < old_owners.len() implies #[trigger] key_at(
                owners@,
                names@,
                k,
            ) == key_at(old_owners, old_names, k) && stars@[k] == old_stars[k] && avatars@[k]
                == old_avatars[k] by {}
            if grew {
                assert(key_at(owners@, names@, old_owners.len() as int) == key);
                assert(first_external_before(prs@, own@, key, i as nat) == -1);
            }
            assert forall|k: int| 0 <= k < owners.len() implies {
                let f = first_external_before(prs@, own@, #[trigger] key_at(owners@, names@, k), n);
                &&& 0 <= f
                &&& stars@[k] == prs@[f].repository.stargazer_count
                &&& avatars@[k]@ == prs@[f].repository.owner.avatar_url@
            } by {
                if k < old_owners.len() {
                    assert(key_at(owners@, names@, k) == key_at(old_owners, old_names, k));
                }
            }
            assert forall|k: int, l: int| 0 <= k < l < owners.len() implies first_external_before(
                prs@,
                own@,
                #[trigger] key_at(owners@, names@, k),
                n,
            ) < first_external_before(prs@, own@, #[trigger] key_at(owners@, names@, l), n) by {
                assert(key_at(owners@, names@, k) == key_at(old_owners, old_names, k));
                lemma_first_external(prs@, own@, key_at(owners@, names@, k), i as nat);
                if l < old_owners.len() {
                    assert(key_at(owners@, names@, l) == key_at(old_owners, old_names, l));
                }
            }
            assert forall|k: int, l: int| 0 <= k < l < owners.len() implies #[trigger] key_at(
                owners@,
                names@,
                k,
            ) != #[trigger] key_at(owners@, names@, l) by {
                assert(key_at(owners@, names@, k) == key_at(old_owners, old_names, k));
                if l < old_owners.len() {
                    assert(key_at(owners@, names@, l) == key_at(old_owners, old_names, l));
                }
            }
            assert forall|j: int| 0 <= j < n && !own@[j] implies tallied(
                owners@,
                names@,
                repo_key(#[trigger] prs@[j]),
            ) by {
                if j < i {
                    assert(tallied(old_owners, old_names, repo_key(prs@[j])));
                    let k = choose|k: int|
                        0 <= k < old_owners.len() && key_at(old_owners, old_names, k) == repo_key(
                            prs@[j],
                        );
                    assert(key_at(owners@, names@, k) == key_at(old_owners, old_names, k));
                } else if !grew {
                    assert(tallied(owners@, names@, key));
                } else {
                    assert(key_at(owners@, names@, old_owners.len() as int) == key);
                }
            }
        }
        i += 1;
    }
    proof {
        assert forall|k: int| 0 <= k < stars.len() implies stars@[k] <= u32::MAX by {
            assert(0 <= first_external_before(prs@, own@, key_at(owners@, names@, k), prs.len() as nat));
        }
    }
    let order = rank_desc(&stars);
    let mut ranking: Vec<ContributionEntry> = Vec::new();
    let mut m: usize = 0;
    while m < order.len()
        invariant
            m <= order.len(),
            is_ranking(stars@, order@),
            owners.len() == stars.len(),
            names.len() == stars.len(),
            avatars.len() == stars.len(),
            forall|k: int| 0 <= k < stars.len() ==> stars@[k] <= u32::MAX,
            ranking@.len() == m,
            forall|q: int|
                0 <= q < m ==> {
                    &&& entry_key(#[trigger] ranking@[q]) == key_at(owners@, names@, order@[q] as int)
                    &&& ranking@[q].stars == stars@[order@[q] as int]
                    &&& ranking@[q].avatar_data matches Some(url) && url@ == avatars@[order@[q] as int]@
                },
        decreases order.len() - m,
    {
        let k = order[m];
        ranking.push(
            ContributionEntry {
                owner: owners[k].clone(),
                repo: names[k].clone(),
                stars: stars[k] as u32,
                avatar_data: Some(avatars[k].clone()),
            },
        );
        m += 1;
    }
    proof {
        lemma_ranked_tally(prs@, own@, owners@, names@, stars@, avatars@, order@, ranking@);
    }
    let ghost full = ranking@;
    ranking.truncate(limit);
    proof {
        let keep = if full.len() < limit {
            full.len() as int
        } else {
            limit as int
        };
        assert(ranking@ =~= full.take(keep));
    }
    ranking
}

/// What base64's padded standard engine makes of `bytes`.
pub uninterp spec fn base64_of(bytes: Seq<u8>) -> Seq<char>;

/// Relies on `base64::Engine::encode` of `general_purpose::STANDARD`: the
/// padded Base64 text of the bytes, a function of the bytes alone. It panics
/// only where the encoded length overflows `usize`.
#[verifier::external_body]
fn base64_encode(bytes: &[u8]) -> (r: String)
    requires
        bytes@.len() <= usize::MAX / 2,
    ensures
        r@ == base64_of(bytes@),
{
    base64::Engine::encode(&base64::engine::general_purpose::STANDARD, bytes)
}

/// Start of an embedded avatar image.
pub const DATA_URI_PREFIX: &'static str = "data:image/png;base64,";

/// The avatar as text, if any.
pub open spec fn avatar_view(avatar: Option<String>) -> Option<Seq<char>> {
    match avatar {
        Some(a) => Some(a@),
        None => None,
    }
}

/// The avatar embedded from Base64 text, or none.
pub open spec fn embedded(encoded: Option<String>) -> Option<Seq<char>> {
    match encoded {
        Some(e) => Some(DATA_URI_PREFIX@ + e@),
        None => None,
    }
}

/// The avatar embedded from the fetched image bytes, or none.
pub open spec fn embedded_image(image: Option<Vec<u8>>) -> Option<Seq<char>> {
    match image {
        Some(b) => Some(DATA_URI_PREFIX@ + base64_of(b@)),
        None => None,
    }
}

/// Whether an image is small enough to be encoded.
pub open spec fn image_fits(image: Option<Vec<u8>>) -> bool {
    match image {
        Some(b) => b@.len() <= usize::MAX / 2,
        None => true,
    }
}

/// `new` is `old` with only the avatars changed.
pub open spec fn same_repositories(old: Seq<ContributionEntry>, new: Seq<ContributionEntry>) -> bool {
    &&& new.len() == old.len()
    &&& forall|i: int|
        0 <= i < new.len() ==> {
            &&& (#[trigger] new[i]).owner == old[i].owner
            &&& new[i].repo == old[i].repo
            &&& new[i].stars == old[i].stars
        }
}

fn clone_avatar(avatar: &Option<String>) -> (r: Option<String>)
    ensures
        avatar_view(r) == avatar_view(*avatar),
{
    match avatar {
        Some(a) => Some(a.clone()),
        None => None,
    }
}

impl Contributions {
    /// Extracts the top `limit` external contributions from owners and login
    /// already lowercased: `folded_owners[i]` is the lowercased owner of the
    /// i-th merged pull request, and pull requests whose owner is
    /// `folded_login` are skipped.
    pub fn from_folded(
        user: &User,
        folded_owners: &Vec<String>,
        folded_login: &String,
        limit: usize,
    ) -> (r: Self)
        requires
            folded_owners.len() == user.merged_pull_requests.nodes.len(),
        ensures
            top_contributions(
                user.merged_pull_requests.nodes@,
                folded_flags(folded_owners@, folded_login@),
                limit as nat,
                r.repos@,
            ),
    {
        let mut own: Vec<bool> = Vec::new();
        let mut i: usize = 0;
        while i < folded_owners.len()
            invariant
                i <= folded_owners.len(),
                own@.len() == i,
                forall|k: int| 0 <= k < i ==> own@[k] == (folded_owners@[k]@ == folded_login@),
            decreases folded_owners.len() - i,
        {
            own.push(folded_owners[i] == *folded_login);
            i += 1;
        }
        assert(own@ =~= folded_flags(folded_owners@, folded_login@));
        Contributions { repos: rank_external(&user.merged_pull_requests.nodes, &own, limit) }
    }

    /// Extracts the top `limit` external contributions of `user`: the
    /// repositories that its merged pull requests target, skipping those
    /// owned by `username` in any letter case, each once with the stars and
    /// avatar first seen, ranked by stars (ties in first-seen order).
    pub fn top_from_user(user: &User, username: &str, limit: usize) -> (r: Self)
        ensures
            top_contributions(
                user.merged_pull_requests.nodes@,
                own_flags(user.merged_pull_requests.nodes@, username@),
                limit as nat,
                r.repos@,
            ),
    {
        let prs = &user.merged_pull_requests.nodes;
        let login = lowercase(username);
        let mut folded: Vec<String> = Vec::new();
        let mut i: usize = 0;
        while i < prs.len()
            invariant
                i <= prs.len(),
                folded@.len() == i,
                forall|k: int| 0 <= k < i ==> folded@[k]@ == lower_of(prs@[k].repository.owner.login@),
            decreases prs.len() - i,
        {
            folded.push(lowercase(prs[i].repository.owner.login.as_str()));
            i += 1;
        }
        let r = Self::from_folded(user, &folded, &login, limit);
        assert(folded_flags(folded@, login@) =~= own_flags(prs@, username@));
        r
    }

    /// Extracts the external contributions of `user`, the top ten.
    pub fn from_user(user: &User, username: &str) -> (r: Self)
        ensures
            top_contributions(
                user.merged_pull_requests.nodes@,
                own_flags(user.merged_pull_requests.nodes@, username@),
                MAX_CONTRIBUTIONS as nat,
                r.repos@,
            ),
    {
        Self::top_from_user(user, username, MAX_CONTRIBUTIONS)
    }

    /// The avatar of each entry, in order: before embedding, the URLs to fetch.
    pub fn avatar_urls(&self) -> (r: Vec<Option<String>>)
        ensures
            r@.len() == self.repos@.len(),
            forall|i: int|
                0 <= i < r@.len() ==> avatar_view(#[trigger] r@[i]) == avatar_view(
                    self.repos@[i].avatar_data,
                ),
    {
        let mut out: Vec<Option<String>> = Vec::new();
        let mut i: usize = 0;
        while i < self.repos.len()
            invariant
                i <= self.repos.len(),
                out@.len() == i,
                forall|k: int|
                    0 <= k < i ==> avatar_view(#[trigger] out@[k]) == avatar_view(
                        self.repos@[k].avatar_data,
                    ),
            decreases self.repos.len() - i,
        {
            out.push(clone_avatar(&self.repos[i].avatar_data));
            i += 1;
        }
        out
    }

    /// Replaces each avatar by the image whose Base64 text is `encoded[i]`,
    /// embedded as a data URI, or by nothing where the fetch failed.
    pub fn attach_avatars(&mut self, encoded: Vec<Option<String>>)
        requires
            encoded@.len() == old(self).repos@.len(),
        ensures
            same_repositories(old(self).repos@, final(self).repos@),
            forall|i: int|
                0 <= i < final(self).repos@.len() ==> avatar_view(
                    (#[trigger] final(self).repos@[i]).avatar_data,
                ) == embedded(encoded@[i]),
    {
        let mut repos: Vec<ContributionEntry> = Vec::new();
        let mut old_repos: Vec<ContributionEntry> = Vec::new();
        std::mem::swap(&mut old_repos, &mut self.repos);
        let ghost before = old_repos@;
        let mut i: usize = 0;
        let mut encoded = encoded;
        let ghost images = encoded@;
        while i < old_repos.len()
            invariant
                i <= old_repos.len(),
                old_repos@ == before,
                encoded@ == images,
                images.len() == before.len(),
                repos@.len() == i,
                same_repositories(before.take(i as int), repos@),
                forall|k: int|
                    0 <= k < i ==> avatar_view((#[trigger] repos@[k]).avatar_data) == embedded(
                        images[k],
                    ),
            decreases old_repos.len() - i,
        {
            let entry = &old_repos[i];
            let avatar_data = match &encoded[i] {
                Some(e) => {
                    let mut uri = String::from_str(DATA_URI_PREFIX);
                    uri.append(e.as_str());
                    Some(uri)
                },
                None => None,
            };
            repos.push(
                ContributionEntry {
                    owner: entry.owner.clone(),
                    repo: entry.repo.clone(),
                    stars: entry.stars,
                    avatar_data,
                },
            );
            i += 1;
        }
        assert(before.take(i as int) =~= before);
        self.repos = repos;
    }

    /// Replaces each avatar by `images[i]`, the fetched image bytes, embedded
    /// as a Base64 data URI, or by nothing where the fetch failed.
    pub fn embed_avatars(&mut self, images: Vec<Option<Vec<u8>>>)
        requires
            images@.len() == old(self).repos@.len(),
            forall|i: int|
                0 <= i < images@.len() ==> image_fits(#[trigger] images@[i]),
        ensures
            same_repositories(old(self).repos@, final(self).repos@),
            forall|i: int|
                0 <= i < final(self).repos@.len() ==> avatar_view(
                    (#[trigger] final(self).repos@[i]).avatar_data,
                ) == embedded_image(images@[i]),
    {
        let mut encoded: Vec<Option<String>> = Vec::new();
        let mut i: usize = 0;
        while i < images.len()
            invariant
                i <= images.len(),
                encoded@.len() == i,
                forall|k: int|
                    0 <= k < images@.len() ==> image_fits(#[trigger] images@[k]),
                forall|k: int|
                    0 <= k < i ==> embedded(#[trigger] encoded@[k]) == embedded_image(images@[k]),
            decreases images.len() - i,
        {
            let e = match &images[i] {
                Some(b) => Some(base64_encode(b.as_slice())),
                None => None,
            };
            encoded.push(e);
            i += 1;
        }
        self.attach_avatars(encoded);
    }
}

/// Length of the "owner/repo" text of an entry, in characters.
pub open spec fn repo_text_len(e: ContributionEntry) -> nat {
    e.owner@.len() + 1 + e.repo@.len()
}

/// The longest "owner/repo" text among `repos`; 0 when there is none.
pub open spec fn longest_repo_text(repos: Seq<ContributionEntry>) -> nat
    decreases repos.len(),
{
    if repos.len() == 0 {
        0
    } else {
        let rest = longest_repo_text(repos.drop_last());
        if repo_text_len(repos.last()) > rest {
            repo_text_len(repos.last())
        } else {
            rest
        }
    }
}

/// Text of an avatar image reference: empty where there is no image.
pub open spec fn avatar_text(avatar: Option<String>) -> Seq<char> {
    match avatar {
        Some(a) => a@,
        None => Seq::empty(),
    }
}

/// Left edge of the repository text.
pub open spec fn text_x() -> int {
    (AVATAR_SIZE + AVATAR_TEXT_GAP) as int
}

impl Contributions {
    /// Left edge of the star column, shared by all rows: after the longest
    /// "owner/repo" text at the average character width (rounded down).
    pub open spec fn star_x(self) -> int {
        text_x() + longest_repo_text(self.repos@) * CHAR_WIDTH_HALVES / 2 + REPO_STAR_GAP
    }

    pub open spec fn tile_width(self) -> int {
        self.star_x() + STAR_AREA_WIDTH
    }

    pub open spec fn tile_height(self) -> int {
        (self.repos@.len() - 1) * ROW_HEIGHT + AVATAR_SIZE
    }

    /// Row `i`: circular-clipped avatar.
    pub open spec fn row_avatar(self, i: int) -> Seq<char> {
        let r = (AVATAR_SIZE / 2) as int;
        "<g transform=\"translate(0, "@ + num(i * ROW_HEIGHT) + ")\">\n                <clipPath id=\"avatar-clip-"@
            + num(i) + "\">\n                    <circle cx=\""@ + num(r) + "\" cy=\""@ + num(r)
            + "\" r=\""@ + num(r) + "\"/>\n                </clipPath>\n                <image href=\""@
            + avatar_text(self.repos@[i].avatar_data) + "\" x=\"0\" y=\"0\" width=\""@ + num(
            AVATAR_SIZE as int,
        ) + "\" height=\""@ + num(AVATAR_SIZE as int) + "\" clip-path=\"url(#avatar-clip-"@ + num(
            i,
        ) + ")\"/>"@
    }

    /// Row `i`: "owner/repo".
    pub open spec fn row_name(self, i: int, config: RenderConfig) -> Seq<char> {
        "\n                <text x=\""@ + num(text_x()) + "\" y=\""@ + num(TEXT_Y as int)
            + "\" fill=\""@ + config.theme.text@ + "\" font-size=\""@ + num(FONT_SIZE as int)
            + "\">\n                    <tspan fill=\""@ + config.theme.icon@ + "\">"@
            + self.repos@[i].owner@ + "</tspan>/<tspan font-weight=\"600\">"@ + self.repos@[i].repo@
            + "</tspan>\n                </text>"@
    }

    /// Row `i`: star glyph and abbreviated star count in the star column.
    pub open spec fn row_stars(self, i: int, config: RenderConfig) -> Seq<char> {
        "\n                <g transform=\"translate("@ + num(self.star_x()) + ", 0)\" fill=\""@
            + config.theme.star@ + "\">\n                    <g transform=\"translate(0, "@ + num(
            STAR_ICON_Y_OFFSET as int,
        ) + ")\">"@ + icons::STAR@ + "</g>\n                    <text x=\""@ + num(
            STAR_ICON_X_OFFSET as int,
        ) + "\" y=\""@ + num(TEXT_Y as int) + "\" fill=\""@ + config.theme.text@
            + "\" font-size=\""@ + num(FONT_SIZE_SMALL as int) + "\">"@ + formatted_number(
            self.repos@[i].stars,
        ) + "</text>\n                </g>\n            </g>"@
    }

    pub open spec fn row(self, i: int, config: RenderConfig) -> Seq<char> {
        self.row_avatar(i) + self.row_name(i, config) + self.row_stars(i, config)
    }

    /// The first `n` rows.
    pub open spec fn rows(self, config: RenderConfig, n: nat) -> Seq<char>
        decreases n,
    {
        if n == 0 {
            Seq::empty()
        } else {
            self.rows(config, (n - 1) as nat) + self.row(n - 1, config)
        }
    }

    /// The contributions document: a placeholder when there is no entry.
    pub open spec fn contributions_document(self, config: RenderConfig) -> Seq<char> {
        if self.repos@.len() == 0 {
            empty_document("No External Contributions"@, config.theme, config.opaque)
        } else {
            tile_document(
                self.tile_width(),
                self.tile_height(),
                config,
                self.rows(config, self.repos@.len()),
            )
        }
    }

    /// Longest "owner/repo" text.
    fn longest_repo_text_of(&self) -> (r: u128)
        ensures
            r == longest_repo_text(self.repos@),
            r <= 3 * 0x1_0000_0000_0000_0000,
    {
        let mut longest: u128 = 0;
        let mut i: usize = 0;
        while i < self.repos.len()
            invariant
                i <= self.repos.len(),
                longest == longest_repo_text(self.repos@.take(i as int)),
                longest <= 3 * 0x1_0000_0000_0000_0000,
            decreases self.repos.len() - i,
        {
            let e = &self.repos[i];
            let len = e.owner.as_str().unicode_len() as u128 + 1 + e.repo.as_str().unicode_len() as u128;
            assert(self.repos@.take(i + 1).drop_last() =~= self.repos@.take(i as int));
            if len > longest {
                longest = len;
            }
            i += 1;
        }
        assert(self.repos@.take(i as int) =~= self.repos@);
        longest
    }

    fn push_row_avatar(&self, out: &mut String, i: usize)
        requires
            i < self.repos@.len(),
        ensures
            final(out)@ == old(out)@ + self.row_avatar(i as int),
    {
        let ghost start = out@;
        let r = AVATAR_SIZE / 2;
        push(out, "<g transform=\"translate(0, ");
        push_num(out, i as u128 * ROW_HEIGHT);
        push(out, ")\">\n                <clipPath id=\"avatar-clip-");
        push_num(out, i as u128);
        push(out, "\">\n                    <circle cx=\"");
        push_num(out, r);
        push(out, "\" cy=\"");
        push_num(out, r);
        push(out, "\" r=\"");
        push_num(out, r);
        push(out, "\"/>\n                </clipPath>\n                <image href=\"");
        match &self.repos[i].avatar_data {
            Some(a) => push(out, a.as_str()),
            None => {},
        }
        push(out, "\" x=\"0\" y=\"0\" width=\"");
        push_num(out, AVATAR_SIZE);
        push(out, "\" height=\"");
        push_num(out, AVATAR_SIZE);
        push(out, "\" clip-path=\"url(#avatar-clip-");
        push_num(out, i as u128);
        push(out, ")\"/>");
        assert(out@ =~= start + self.row_avatar(i as int));
    }

    fn push_row_name(&self, out: &mut String, i: usize, config: &RenderConfig)
        requires
            i < self.repos@.len(),
        ensures
            final(out)@ == old(out)@ + self.row_name(i as int, *config),
    {
        let ghost start = out@;
        push(out, "\n                <text x=\"");
        push_num(out, AVATAR_SIZE + AVATAR_TEXT_GAP);
        push(out, "\" y=\"");
        push_num(out, TEXT_Y);
        push(out, "\" fill=\"");
        push(out, config.theme.text);
        push(out, "\" font-size=\"");
        push_num(out, FONT_SIZE);
        push(out, "\">\n                    <tspan fill=\"");
        push(out, config.theme.icon);
        push(out, "\">");
        push(out, self.repos[i].owner.as_str());
        push(out, "</tspan>/<tspan font-weight=\"600\">");
        push(out, self.repos[i].repo.as_str());
        push(out, "</tspan>\n                </text>");
        assert(out@ =~= start + self.row_name(i as int, *config));
    }

    fn push_row_stars(&self, out: &mut String, i: usize, config: &RenderConfig, star_x: u128)
        requires
            i < self.repos@.len(),
            star_x == self.star_x(),
        ensures
            final(out)@ == old(out)@ + self.row_stars(i as int, *config),
    {
        let ghost start = out@;
        push(out, "\n                <g transform=\"translate(");
        push_num(out, star_x);
        push(out, ", 0)\" fill=\"");
        push(out, config.theme.star);
        push(out, "\">\n                    <g transform=\"translate(0, ");
        push_num(out, STAR_ICON_Y_OFFSET);
        push(out, ")\">");
        push(out, icons::STAR);
        push(out, "</g>\n                    <text x=\"");
        push_num(out, STAR_ICON_X_OFFSET);
        push(out, "\" y=\"");
        push_num(out, TEXT_Y);
        push(out, "\" fill=\"");
        push(out, config.theme.text);
        push(out, "\" font-size=\"");
        push_num(out, FONT_SIZE_SMALL);
        push(out, "\">");
        let stars = format_number(self.repos[i].stars);
        push(out, stars.as_str());
        push(out, "</text>\n                </g>\n            </g>");
        assert(out@ =~= start + self.row_stars(i as int, *config));
    }
}

impl Tile for Contributions {
    open spec fn ready(&self) -> bool {
        true
    }

    open spec fn tile_name(&self) -> Seq<char> {
        "contributions"@
    }

    open spec fn document(&self, config: RenderConfig) -> Seq<char> {
        self.contributions_document(config)
    }

    fn name(&self) -> (r: &'static str) {
        "contributions"
    }

    fn render(&self, config: &RenderConfig) -> (r: String) {
        if self.repos.len() == 0 {
            return empty_svg("No External Contributions", config.theme, config.opaque);
        }
        let longest = self.longest_repo_text_of();
        let star_x = AVATAR_SIZE + AVATAR_TEXT_GAP + longest * CHAR_WIDTH_HALVES / 2 + REPO_STAR_GAP;
        let width = star_x + STAR_AREA_WIDTH;
        let height = (self.repos.len() - 1) as u128 * ROW_HEIGHT + AVATAR_SIZE;
        let mut rows = String::new();
        let mut i: usize = 0;
        while i < self.repos.len()
            invariant
                i <= self.repos@.len(),
                star_x == self.star_x(),
                rows@ == self.rows(*config, i as nat),
            decreases self.repos@.len() - i,
        {
            let ghost before = rows@;
            self.push_row_avatar(&mut rows, i);
            self.push_row_name(&mut rows, i, config);
            self.push_row_stars(&mut rows, i, config, star_x);
            assert(rows@ =~= before + self.row(i as int, *config));
            i += 1;
        }
        finish_tile(width, height, config, rows.as_str())
    }
}

} // verus!
