//! Pre-aggregated provider leaderboard.
//!
//! Two index arrays are kept, one ranked by success rate and one by total
//! volume, each sorted by its score in descending order, holding each provider
//! at most once, holding only qualified providers and capped at
//! `INDEX_CAPACITY` entries. Every provider stats update re-inserts the
//! provider into both indexes; a query reads a prefix of one index.
use vstd::prelude::*;

use crate::AccountId;

verus! {

/// Signals a provider must have closed before it is ranked.
pub const MIN_SIGNALS_QUALIFICATION: u32 = 5;

/// Entries returned when a query asks for `0` entries.
pub const DEFAULT_LEADERBOARD_LIMIT: u32 = 10;

/// Most entries a query returns.
pub const MAX_LEADERBOARD_LIMIT: u32 = 50;

/// Maximum entries maintained in each sorted index.
pub const INDEX_CAPACITY: u32 = 100;

/// What a leaderboard is ranked by.
#[derive(Clone, Copy, Debug, PartialEq, Eq, Structural)]
pub enum LeaderboardMetric {
    SuccessRate,
    Volume,
    Followers,
}

/// One row of a leaderboard answer.
#[derive(Clone, Copy, Debug, PartialEq, Eq, Structural)]
pub struct ProviderLeaderboard {
    pub rank: u32,
    pub provider: AccountId,
    pub success_rate: u32,
    pub total_volume: i128,
    pub total_signals: u32,
}

/// The two sorted indexes.
#[derive(Clone, Copy, Debug, PartialEq, Eq, Structural)]
pub enum LeaderboardKey {
    SuccessRateIndex,
    VolumeIndex,
}

/// An entry of a sorted index.
#[derive(Clone, Copy, Debug, PartialEq, Eq, Structural)]
pub struct IndexEntry {
    pub provider: AccountId,
    pub success_rate: u32,
    pub total_volume: i128,
    pub total_signals: u32,
}

/// A provider's signal statistics.
#[derive(Clone, Copy, Debug, PartialEq, Eq, Structural)]
pub struct ProviderPerformance {
    pub total_signals: u32,
    pub successful_signals: u32,
    pub failed_signals: u32,
    pub total_copies: u64,
    pub success_rate: u32,
    pub avg_return: i128,
    pub total_volume: i128,
}

// ── Specification ────────────────────────────────────────────────────────────

/// The score an index is sorted by.
pub open spec fn score(e: IndexEntry, key: LeaderboardKey) -> int {
    match key {
        LeaderboardKey::SuccessRateIndex => e.success_rate as int,
        LeaderboardKey::VolumeIndex => e.total_volume as int,
    }
}

/// Whether a provider has enough history and a positive success rate.
pub open spec fn qualified(e: IndexEntry) -> bool {
    e.total_signals >= MIN_SIGNALS_QUALIFICATION && e.success_rate > 0
}

/// Keeps the entries of providers other than `p`.
pub open spec fn not_provider(p: AccountId) -> spec_fn(IndexEntry) -> bool {
    |e: IndexEntry| e.provider != p
}

/// `s` without the entries of provider `p`, in the same order.
pub open spec fn other_providers(s: Seq<IndexEntry>, p: AccountId) -> Seq<IndexEntry> {
    s.filter(not_provider(p))
}

/// The first position whose score is strictly below `sc` (or the length).
pub open spec fn insert_position(s: Seq<IndexEntry>, sc: int, key: LeaderboardKey) -> nat
    decreases s.len(),
{
    if s.len() == 0 {
        0
    } else if score(s[0], key) < sc {
        0
    } else {
        1 + insert_position(s.drop_first(), sc, key)
    }
}

/// `s` with `e` placed at position `pos`.
pub open spec fn placed_at(s: Seq<IndexEntry>, pos: int, e: IndexEntry) -> Seq<IndexEntry> {
    s.take(pos) + seq![e] + s.skip(pos)
}

/// At most the first `INDEX_CAPACITY` entries of `s`.
pub open spec fn capped(s: Seq<IndexEntry>) -> Seq<IndexEntry> {
    if s.len() <= INDEX_CAPACITY {
        s
    } else {
        s.take(INDEX_CAPACITY as int)
    }
}

/// The index after `entry` replaces its provider's earlier entry: the old
/// entry goes, and `entry` is placed before the first lower-scoring entry if
/// it qualifies; the result is capped at `INDEX_CAPACITY`.
pub open spec fn upserted(s: Seq<IndexEntry>, entry: IndexEntry, key: LeaderboardKey) -> Seq<IndexEntry> {
    let rest = other_providers(s, entry.provider);
    if !qualified(entry) {
        rest
    } else {
        capped(placed_at(rest, insert_position(rest, score(entry, key), key) as int, entry))
    }
}

/// Sorted by `key`'s score, highest first.
pub open spec fn sorted_desc(s: Seq<IndexEntry>, key: LeaderboardKey) -> bool {
    forall|i: int, j: int| 0 <= i < j < s.len() ==> score(s[i], key) >= score(s[j], key)
}

/// No provider occurs twice.
pub open spec fn unique_providers(s: Seq<IndexEntry>) -> bool {
    forall|i: int, j: int| 0 <= i < s.len() && 0 <= j < s.len() && i != j ==> s[i].provider != s[j].provider
}

/// Every entry is of a qualified provider.
pub open spec fn all_qualified(s: Seq<IndexEntry>) -> bool {
    forall|i: int| 0 <= i < s.len() ==> qualified(#[trigger] s[i])
}

/// What every index keeps: sorted, unique, qualified, capped.
pub open spec fn index_wf(s: Seq<IndexEntry>, key: LeaderboardKey) -> bool {
    &&& sorted_desc(s, key)
    &&& unique_providers(s)
    &&& all_qualified(s)
    &&& s.len() <= INDEX_CAPACITY
}

/// The entry built from a provider's stats.
pub open spec fn entry_of(provider: AccountId, stats: ProviderPerformance) -> IndexEntry {
    IndexEntry {
        provider,
        success_rate: stats.success_rate,
        total_volume: stats.total_volume,
        total_signals: stats.total_signals,
    }
}

/// How many rows a query for `limit` asks for.
pub open spec fn effective_limit(limit: u32) -> int {
    if limit == 0 {
        DEFAULT_LEADERBOARD_LIMIT as int
    } else if limit < MAX_LEADERBOARD_LIMIT {
        limit as int
    } else {
        MAX_LEADERBOARD_LIMIT as int
    }
}

/// The row for index entry `e` at 1-based `rank`.
pub open spec fn row_of(e: IndexEntry, rank: int) -> ProviderLeaderboard {
    ProviderLeaderboard {
        rank: rank as u32,
        provider: e.provider,
        success_rate: e.success_rate,
        total_volume: e.total_volume,
        total_signals: e.total_signals,
    }
}

/// The leaderboard answer for `metric` and `limit` over the two indexes.
pub open spec fn leaderboard_rows(
    success_rate_index: Seq<IndexEntry>,
    volume_index: Seq<IndexEntry>,
    metric: LeaderboardMetric,
    limit: u32,
) -> Seq<ProviderLeaderboard> {
    let idx = match metric {
        LeaderboardMetric::SuccessRate => success_rate_index,
        LeaderboardMetric::Volume => volume_index,
        LeaderboardMetric::Followers => Seq::empty(),
    };
    let n = if effective_limit(limit) < idx.len() {
        effective_limit(limit)
    } else {
        idx.len() as int
    };
    Seq::new(n as nat, |i: int| row_of(idx[i], i + 1))
}

// ── Lemmas ───────────────────────────────────────────────────────────────────

proof fn lemma_filter_members(s: Seq<IndexEntry>, p: AccountId)
    ensures
        forall|i: int|
            0 <= i < other_providers(s, p).len() ==> exists|j: int|
                0 <= j < s.len() && s[j] == #[trigger] other_providers(s, p)[i],
        forall|i: int|
            0 <= i < other_providers(s, p).len() ==> (#[trigger] other_providers(s, p)[i]).provider != p,
        other_providers(s, p).len() <= s.len(),
    decreases s.len(),
{
    reveal(Seq::filter);
    if s.len() > 0 {
        lemma_filter_members(s.drop_last(), p);
        let r = other_providers(s.drop_last(), p);
        assert forall|i: int| 0 <= i < other_providers(s, p).len() implies exists|j: int|
            0 <= j < s.len() && s[j] == #[trigger] other_providers(s, p)[i] by {
            if i < r.len() {
                let j = choose|j: int| 0 <= j < s.drop_last().len() && s.drop_last()[j] == r[i];
                assert(s[j] == other_providers(s, p)[i]);
            } else {
                assert(s[s.len() - 1] == other_providers(s, p)[i]);
            }
        }
    }
}

proof fn lemma_filter_keeps_index(s: Seq<IndexEntry>, p: AccountId, key: LeaderboardKey)
    requires
        sorted_desc(s, key),
        unique_providers(s),
        all_qualified(s),
    ensures
        sorted_desc(other_providers(s, p), key),
        unique_providers(other_providers(s, p)),
        all_qualified(other_providers(s, p)),
    decreases s.len(),
{
    reveal(Seq::filter);
    if s.len() > 0 {
        let d = s.drop_last();
        let last = s.last();
        lemma_filter_keeps_index(d, p, key);
        lemma_filter_members(d, p);
        let r = other_providers(d, p);
        if not_provider(p)(last) {
            let out = r.push(last);
            assert(other_providers(s, p) == out);
            assert forall|i: int, j: int| 0 <= i < j < out.len() implies score(out[i], key) >= score(out[j], key) by {
                if j == out.len() - 1 {
                    let k = choose|k: int| 0 <= k < d.len() && d[k] == #[trigger] r[i];
                    assert(s[k] == out[i]);
                }
            }
            assert forall|i: int, j: int|
                0 <= i < out.len() && 0 <= j < out.len() && i != j implies out[i].provider != out[j].provider by {
                if i == out.len() - 1 {
                    let k = choose|k: int| 0 <= k < d.len() && d[k] == #[trigger] r[j];
                    assert(s[k] == out[j]);
                } else if j == out.len() - 1 {
                    let k = choose|k: int| 0 <= k < d.len() && d[k] == #[trigger] r[i];
                    assert(s[k] == out[i]);
                }
            }
            assert forall|i: int| 0 <= i < out.len() implies qualified(#[trigger] out[i]) by {
                if i < r.len() {
                    assert(qualified(r[i]));
                } else {
                    assert(qualified(s[s.len() - 1]));
                }
            }
        }
    }
}

proof fn lemma_insert_position(s: Seq<IndexEntry>, sc: int, key: LeaderboardKey)
    ensures
        insert_position(s, sc, key) <= s.len(),
        forall|j: int| 0 <= j < insert_position(s, sc, key) ==> score(#[trigger] s[j], key) >= sc,
        insert_position(s, sc, key) < s.len() ==> score(s[insert_position(s, sc, key) as int], key) < sc,
    decreases s.len(),
{
    if s.len() > 0 && score(s[0], key) >= sc {
        lemma_insert_position(s.drop_first(), sc, key);
        assert forall|j: int| 0 <= j < insert_position(s, sc, key) implies score(#[trigger] s[j], key) >= sc by {
            if j > 0 {
                assert(s[j] == s.drop_first()[j - 1]);
            }
        }
    }
}

proof fn lemma_insert_position_unique(s: Seq<IndexEntry>, sc: int, key: LeaderboardKey, p: int)
    requires
        0 <= p <= s.len(),
        forall|j: int| 0 <= j < p ==> score(#[trigger] s[j], key) >= sc,
        p < s.len() ==> score(s[p], key) < sc,
    ensures
        insert_position(s, sc, key) == p,
    decreases s.len(),
{
    if p > 0 {
        assert(score(s[0], key) >= sc);
        assert forall|j: int| 0 <= j < p - 1 implies score(#[trigger] s.drop_first()[j], key) >= sc by {
            assert(s.drop_first()[j] == s[j + 1]);
        }
        lemma_insert_position_unique(s.drop_first(), sc, key, p - 1);
    }
}

proof fn lemma_prefix_keeps_index(s: Seq<IndexEntry>, n: int, key: LeaderboardKey)
    requires
        0 <= n <= s.len(),
        sorted_desc(s, key),
        unique_providers(s),
        all_qualified(s),
    ensures
        sorted_desc(s.take(n), key),
        unique_providers(s.take(n)),
        all_qualified(s.take(n)),
{
    assert forall|i: int| 0 <= i < s.take(n).len() implies qualified(#[trigger] s.take(n)[i]) by {
        assert(s.take(n)[i] == s[i]);
    }
}

/// Upserting into a well-formed index gives a well-formed index: sorted by
/// score, highest first, each provider at most once, only qualified
/// providers, at most `INDEX_CAPACITY` entries.
pub proof fn law_upsert_keeps_index_well_formed(s: Seq<IndexEntry>, entry: IndexEntry, key: LeaderboardKey)
    requires
        index_wf(s, key),
    ensures
        index_wf(upserted(s, entry, key), key),
{
    let p = entry.provider;
    let rest = other_providers(s, p);
    lemma_filter_keeps_index(s, p, key);
    lemma_filter_members(s, p);
    if qualified(entry) {
        let sc = score(entry, key);
        let pos = insert_position(rest, sc, key) as int;
        lemma_insert_position(rest, sc, key);
        let placed = placed_at(rest, pos, entry);
        assert(placed.len() == rest.len() + 1);
        assert forall|i: int| 0 <= i < placed.len() implies #[trigger] placed[i] == (if i < pos {
            rest[i]
        } else if i == pos {
            entry
        } else {
            rest[i - 1]
        }) by {}
        assert forall|i: int, j: int| 0 <= i < j < placed.len() implies score(placed[i], key) >= score(placed[j], key) by {
            if i < pos && j == pos {
                assert(score(rest[i], key) >= sc);
            } else if i == pos && j > pos {
                assert(score(rest[pos], key) < sc);
                assert(score(rest[pos], key) >= score(rest[j - 1], key));
            }
        }
        assert forall|i: int, j: int|
            0 <= i < placed.len() && 0 <= j < placed.len() && i != j implies placed[i].provider != placed[j].provider by {
            if i == pos {
                let k = if j < pos { j } else { j - 1 };
                assert(rest[k].provider != p);
            } else if j == pos {
                let k = if i < pos { i } else { i - 1 };
                assert(rest[k].provider != p);
            }
        }
        assert forall|i: int| 0 <= i < placed.len() implies qualified(#[trigger] placed[i]) by {
            if i < pos {
                assert(qualified(rest[i]));
            } else if i > pos {
                assert(qualified(rest[i - 1]));
            }
        }
        if placed.len() > INDEX_CAPACITY {
            lemma_prefix_keeps_index(placed, INDEX_CAPACITY as int, key);
        }
    } else {
        assert(rest.len() <= s.len());
    }
}

/// After an upsert the provider's only entry, if any, is the new entry; it
/// has none when its stats do not qualify, and has it whenever its stats
/// qualify and the index had room; every other entry was in the index before.
pub proof fn law_upsert_replaces_provider_entry(s: Seq<IndexEntry>, entry: IndexEntry, key: LeaderboardKey)
    requires
        index_wf(s, key),
    ensures
        forall|i: int|
            0 <= i < upserted(s, entry, key).len() && (#[trigger] upserted(s, entry, key)[i]).provider
                == entry.provider ==> upserted(s, entry, key)[i] == entry,
        !qualified(entry) ==> forall|i: int|
            0 <= i < upserted(s, entry, key).len() ==> (#[trigger] upserted(s, entry, key)[i]).provider
                != entry.provider,
        qualified(entry) && s.len() < INDEX_CAPACITY ==> upserted(s, entry, key).contains(entry),
        forall|i: int|
            0 <= i < upserted(s, entry, key).len() && #[trigger] upserted(s, entry, key)[i] != entry
                ==> s.contains(upserted(s, entry, key)[i]),
{
    let p = entry.provider;
    let rest = other_providers(s, p);
    let u = upserted(s, entry, key);
    lemma_filter_members(s, p);
    if qualified(entry) {
        let sc = score(entry, key);
        let pos = insert_position(rest, sc, key) as int;
        lemma_insert_position(rest, sc, key);
        let placed = placed_at(rest, pos, entry);
        assert forall|i: int| 0 <= i < placed.len() implies #[trigger] placed[i] == (if i < pos {
            rest[i]
        } else if i == pos {
            entry
        } else {
            rest[i - 1]
        }) by {}
        assert forall|i: int| 0 <= i < u.len() implies #[trigger] u[i] == placed[i] by {}
        assert forall|i: int| 0 <= i < u.len() && (#[trigger] u[i]).provider == p implies u[i] == entry by {
            if i < pos {
                assert(rest[i].provider != p);
            } else if i > pos {
                assert(rest[i - 1].provider != p);
            }
        }
        assert forall|i: int| 0 <= i < u.len() && #[trigger] u[i] != entry implies s.contains(u[i]) by {
            let k = if i < pos { i } else { i - 1 };
            assert(u[i] == rest[k]);
            let j = choose|j: int| 0 <= j < s.len() && s[j] == #[trigger] rest[k];
        }
        if s.len() < INDEX_CAPACITY {
            assert(u[pos] == entry);
        }
    } else {
        assert forall|i: int| 0 <= i < u.len() && #[trigger] u[i] != entry implies s.contains(u[i]) by {
            let j = choose|j: int| 0 <= j < s.len() && s[j] == #[trigger] rest[i];
        }
    }
}

/// A leaderboard answer over well-formed indexes lists at most the
/// effective limit of distinct, qualified providers, ranked 1, 2, 3, ... in
/// order of the metric, highest first; the followers leaderboard is empty.
pub proof fn law_leaderboard_rows_ranked(
    success_rate_index: Seq<IndexEntry>,
    volume_index: Seq<IndexEntry>,
    metric: LeaderboardMetric,
    limit: u32,
)
    requires
        index_wf(success_rate_index, LeaderboardKey::SuccessRateIndex),
        index_wf(volume_index, LeaderboardKey::VolumeIndex),
    ensures
        ({
            let rows = leaderboard_rows(success_rate_index, volume_index, metric, limit);
            &&& rows.len() <= effective_limit(limit)
            &&& metric == LeaderboardMetric::Followers ==> rows.len() == 0
            &&& forall|i: int| 0 <= i < rows.len() ==> (#[trigger] rows[i]).rank == i + 1
            &&& forall|i: int|
                0 <= i < rows.len() ==> (#[trigger] rows[i]).total_signals >= MIN_SIGNALS_QUALIFICATION
                    && rows[i].success_rate > 0
            &&& forall|i: int, j: int|
                0 <= i < rows.len() && 0 <= j < rows.len() && i != j ==> rows[i].provider != rows[j].provider
            &&& metric == LeaderboardMetric::SuccessRate ==> forall|i: int, j: int|
                0 <= i < j < rows.len() ==> rows[i].success_rate >= rows[j].success_rate
            &&& metric == LeaderboardMetric::Volume ==> forall|i: int, j: int|
                0 <= i < j < rows.len() ==> rows[i].total_volume >= rows[j].total_volume
        }),
{
    let rows = leaderboard_rows(success_rate_index, volume_index, metric, limit);
    let idx = match metric {
        LeaderboardMetric::SuccessRate => success_rate_index,
        LeaderboardMetric::Volume => volume_index,
        LeaderboardMetric::Followers => Seq::<IndexEntry>::empty(),
    };
    assert(effective_limit(limit) <= MAX_LEADERBOARD_LIMIT);
    assert forall|i: int| 0 <= i < rows.len() implies (#[trigger] rows[i]).rank == i + 1 by {
        assert(rows[i] == row_of(idx[i], i + 1));
    }
    assert forall|i: int| 0 <= i < rows.len() implies (#[trigger] rows[i]).total_signals
        >= MIN_SIGNALS_QUALIFICATION && rows[i].success_rate > 0 by {
        assert(rows[i] == row_of(idx[i], i + 1));
        assert(qualified(idx[i]));
    }
    assert forall|i: int, j: int|
        0 <= i < rows.len() && 0 <= j < rows.len() && i != j implies rows[i].provider != rows[j].provider by {
        assert(rows[i] == row_of(idx[i], i + 1));
        assert(rows[j] == row_of(idx[j], j + 1));
    }
    if metric == LeaderboardMetric::SuccessRate {
        assert forall|i: int, j: int| 0 <= i < j < rows.len() implies rows[i].success_rate
            >= rows[j].success_rate by {
            assert(rows[i] == row_of(idx[i], i + 1));
            assert(rows[j] == row_of(idx[j], j + 1));
            assert(score(idx[i], LeaderboardKey::SuccessRateIndex) >= score(idx[j], LeaderboardKey::SuccessRateIndex));
        }
    }
    if metric == LeaderboardMetric::Volume {
        assert forall|i: int, j: int| 0 <= i < j < rows.len() implies rows[i].total_volume
            >= rows[j].total_volume by {
            assert(rows[i] == row_of(idx[i], i + 1));
            assert(rows[j] == row_of(idx[j], j + 1));
            assert(score(idx[i], LeaderboardKey::VolumeIndex) >= score(idx[j], LeaderboardKey::VolumeIndex));
        }
    }
}

/// A query for 1 to `MAX_LEADERBOARD_LIMIT` rows of the success-rate or
/// volume leaderboard returns exactly `min(limit, index length)` rows: row
/// `i` is the index's entry `i` with rank `i + 1`.
pub proof fn law_leaderboard_honours_limit(
    success_rate_index: Seq<IndexEntry>,
    volume_index: Seq<IndexEntry>,
    metric: LeaderboardMetric,
    limit: u32,
)
    requires
        1 <= limit <= MAX_LEADERBOARD_LIMIT,
        metric != LeaderboardMetric::Followers,
    ensures
        ({
            let rows = leaderboard_rows(success_rate_index, volume_index, metric, limit);
            let idx = if metric == LeaderboardMetric::SuccessRate {
                success_rate_index
            } else {
                volume_index
            };
            &&& rows.len() == (if limit < idx.len() {
                limit as int
            } else {
                idx.len() as int
            })
            &&& forall|i: int|
                0 <= i < rows.len() ==> {
                    &&& (#[trigger] rows[i]).rank == i + 1
                    &&& rows[i].provider == idx[i].provider
                    &&& rows[i].success_rate == idx[i].success_rate
                    &&& rows[i].total_volume == idx[i].total_volume
                    &&& rows[i].total_signals == idx[i].total_signals
                }
        }),
{
}

/// Upserting a qualified entry into a well-formed index keeps it whenever
/// fewer than `INDEX_CAPACITY` other providers' entries score at least as
/// high (the index had room, or its last kept other entry scores lower); and
/// every other provider's entry is kept when the entries ahead of it after
/// the upsert (those ahead of it before, plus the new entry when that scores
/// strictly higher) number fewer than `INDEX_CAPACITY`. An unqualified entry
/// only removes the provider's old entry.
pub proof fn law_upsert_admits_and_keeps(s: Seq<IndexEntry>, entry: IndexEntry, key: LeaderboardKey)
    requires
        index_wf(s, key),
    ensures
        ({
            let rest = other_providers(s, entry.provider);
            let u = upserted(s, entry, key);
            &&& (entry.total_signals >= MIN_SIGNALS_QUALIFICATION && entry.success_rate > 0 && (rest.len()
                < INDEX_CAPACITY || score(rest[INDEX_CAPACITY - 1], key) < score(entry, key)))
                ==> u.contains(entry)
            &&& forall|j: int|
                0 <= j < rest.len() && (!(entry.total_signals >= MIN_SIGNALS_QUALIFICATION
                    && entry.success_rate > 0) || j + (if score(entry, key) > score(
                    #[trigger] rest[j],
                    key,
                ) {
                    1int
                } else {
                    0int
                }) < INDEX_CAPACITY) ==> u.contains(rest[j])
            &&& forall|i: int| 0 <= i < u.len() ==> (#[trigger] u[i] == entry || rest.contains(u[i]))
        }),
{
    let p = entry.provider;
    let rest = other_providers(s, p);
    let u = upserted(s, entry, key);
    lemma_filter_keeps_index(s, p, key);
    if qualified(entry) {
        let sc = score(entry, key);
        let pos = insert_position(rest, sc, key) as int;
        lemma_insert_position(rest, sc, key);
        let placed = placed_at(rest, pos, entry);
        assert forall|i: int| 0 <= i < placed.len() implies #[trigger] placed[i] == (if i < pos {
            rest[i]
        } else if i == pos {
            entry
        } else {
            rest[i - 1]
        }) by {}
        assert forall|i: int| 0 <= i < u.len() implies #[trigger] u[i] == placed[i] by {}
        if rest.len() < INDEX_CAPACITY || score(rest[INDEX_CAPACITY - 1], key) < sc {
            if pos >= INDEX_CAPACITY {
                assert(score(rest[INDEX_CAPACITY - 1], key) >= sc);
            }
            assert(u[pos] == entry);
        }
        assert forall|j: int|
            0 <= j < rest.len() && j + (if sc > score(#[trigger] rest[j], key) {
                1int
            } else {
                0int
            }) < INDEX_CAPACITY implies u.contains(rest[j]) by {
            if sc > score(rest[j], key) {
                if j < pos {
                    assert(score(rest[j], key) >= sc);
                }
                assert(u[j + 1] == rest[j]);
            } else {
                if j >= pos {
                    assert(score(rest[pos], key) >= score(rest[j], key));
                }
                assert(u[j] == rest[j]);
            }
        }
        assert forall|i: int| 0 <= i < u.len() implies (#[trigger] u[i] == entry || rest.contains(u[i])) by {
            if i < pos {
                assert(u[i] == rest[i]);
            } else if i > pos {
                assert(u[i] == rest[i - 1]);
            }
        }
    } else {
        assert forall|j: int| 0 <= j < rest.len() implies u.contains(#[trigger] rest[j]) by {
            assert(u[j] == rest[j]);
        }
        assert forall|i: int| 0 <= i < u.len() implies (#[trigger] u[i] == entry || rest.contains(u[i])) by {
            assert(rest[i] == u[i]);
        }
    }
}

// ── Executable code ──────────────────────────────────────────────────────────

/// Whether the entry's provider may be ranked.
pub fn is_qualified(entry: &IndexEntry) -> (r: bool)
    ensures
        r == qualified(*entry),
{
    entry.total_signals >= MIN_SIGNALS_QUALIFICATION && entry.success_rate > 0
}

/// The score that `key`'s index is sorted by.
pub fn score_of(entry: &IndexEntry, key: LeaderboardKey) -> (r: i128)
    ensures
        r == score(*entry, key),
{
    match key {
        LeaderboardKey::SuccessRateIndex => entry.success_rate as i128,
        LeaderboardKey::VolumeIndex => entry.total_volume,
    }
}

/// Replaces `entry`'s provider in `index`: drops its old entry, then, if the
/// entry qualifies, inserts it before the first entry with a lower score and
/// caps the index at `INDEX_CAPACITY`.
pub fn upsert_sorted(index: &mut Vec<IndexEntry>, entry: IndexEntry, key: LeaderboardKey)
    ensures
        final(index)@ == upserted(old(index)@, entry, key),
{
    let ghost pred = not_provider(entry.provider);
    let n = index.len();
    let mut rest: Vec<IndexEntry> = Vec::new();
    for i in 0..n
        invariant
            n == index@.len(),
            pred == not_provider(entry.provider),
            rest@ == index@.take(i as int).filter(pred),
    {
        let e = index[i];
        if e.provider != entry.provider {
            rest.push(e);
        }
        proof {
            reveal(Seq::filter);
            assert(index@.take(i + 1).drop_last() =~= index@.take(i as int));
        }
    }
    proof {
        assert(index@.take(n as int) =~= index@);
    }
    if !is_qualified(&entry) {
        *index = rest;
        return;
    }
    let entry_score = score_of(&entry, key);
    let m = rest.len();
    let mut insert_at: usize = 0;
    while insert_at < m && score_of(&rest[insert_at], key) >= entry_score
        invariant
            m == rest@.len(),
            insert_at <= m,
            forall|j: int| 0 <= j < insert_at ==> score(#[trigger] rest@[j], key) >= entry_score,
        decreases m - insert_at,
    {
        insert_at = insert_at + 1;
    }
    proof {
        lemma_insert_position_unique(rest@, entry_score as int, key, insert_at as int);
    }
    let ghost before_insert = rest@;
    rest.insert(insert_at, entry);
    proof {
        assert(rest@ =~= placed_at(before_insert, insert_at as int, entry));
    }
    if rest.len() > INDEX_CAPACITY as usize {
        rest.truncate(INDEX_CAPACITY as usize);
    }
    proof {
        assert(rest@ =~= capped(placed_at(before_insert, insert_at as int, entry)));
    }
    *index = rest;
}

/// Whether `index` is a well-formed index for `key` (see `index_wf`), as an
/// index read back from storage must be before it is saved.
pub fn is_well_formed_index(index: &Vec<IndexEntry>, key: LeaderboardKey) -> (r: bool)
    ensures
        r == index_wf(index@, key),
{
    let n = index.len();
    if n > INDEX_CAPACITY as usize {
        return false;
    }
    let mut i: usize = 0;
    while i < n
        invariant
            n == index@.len(),
            i <= n,
            forall|a: int| 0 <= a < i ==> qualified(#[trigger] index@[a]),
            forall|a: int, b: int| 0 <= a < b < i ==> score(index@[a], key) >= score(index@[b], key),
            forall|a: int, b: int|
                0 <= a < i && 0 <= b < i && a != b ==> index@[a].provider != index@[b].provider,
        decreases n - i,
    {
        let e = index[i];
        if !is_qualified(&e) {
            return false;
        }
        if i > 0 && score_of(&index[i - 1], key) < score_of(&e, key) {
            return false;
        }
        let mut j: usize = 0;
        while j < i
            invariant
                n == index@.len(),
                i < n,
                j <= i,
                e == index@[i as int],
                forall|a: int| 0 <= a < j ==> index@[a].provider != e.provider,
            decreases i - j,
        {
            if index[j].provider == e.provider {
                return false;
            }
            j = j + 1;
        }
        i = i + 1;
    }
    true
}

/// The two sorted indexes of the signal registry.
pub struct Leaderboard {
    success_rate_index: Vec<IndexEntry>,
    volume_index: Vec<IndexEntry>,
}

impl Leaderboard {
    #[verifier::type_invariant]
    spec fn indexes_wf(self) -> bool {
        &&& index_wf(self.success_rate_index@, LeaderboardKey::SuccessRateIndex)
        &&& index_wf(self.volume_index@, LeaderboardKey::VolumeIndex)
    }

    /// The contents of `key`'s index.
    pub closed spec fn index_view(self, key: LeaderboardKey) -> Seq<IndexEntry> {
        match key {
            LeaderboardKey::SuccessRateIndex => self.success_rate_index@,
            LeaderboardKey::VolumeIndex => self.volume_index@,
        }
    }

    /// Empty indexes.
    pub fn new() -> (lb: Self)
        ensures
            lb.index_view(LeaderboardKey::SuccessRateIndex) == Seq::<IndexEntry>::empty(),
            lb.index_view(LeaderboardKey::VolumeIndex) == Seq::<IndexEntry>::empty(),
    {
        Leaderboard { success_rate_index: Vec::new(), volume_index: Vec::new() }
    }

    /// A copy of `key`'s index.
    pub fn load_index(&self, key: LeaderboardKey) -> (r: Vec<IndexEntry>)
        ensures
            r@ == self.index_view(key),
    {
        let src = match key {
            LeaderboardKey::SuccessRateIndex => &self.success_rate_index,
            LeaderboardKey::VolumeIndex => &self.volume_index,
        };
        let mut out: Vec<IndexEntry> = Vec::new();
        let n = src.len();
        for i in 0..n
            invariant
                n == src@.len(),
                out@ == src@.take(i as int),
        {
            out.push(src[i]);
            proof {
                assert(out@ =~= src@.take(i + 1));
            }
        }
        proof {
            assert(src@.take(n as int) =~= src@);
        }
        out
    }

    /// Replaces `key`'s index by a well-formed one.
    pub fn save_index(&mut self, key: LeaderboardKey, index: Vec<IndexEntry>)
        requires
            index_wf(index@, key),
        ensures
            final(self).index_view(key) == index@,
            forall|k: LeaderboardKey| k != key ==> final(self).index_view(k) == old(self).index_view(k),
    {
        proof {
            use_type_invariant(&*self);
        }
        match key {
            LeaderboardKey::SuccessRateIndex => {
                self.success_rate_index = index;
            },
            LeaderboardKey::VolumeIndex => {
                self.volume_index = index;
            },
        }
    }

    /// Re-inserts `provider` with its new `stats` into both indexes.
    pub fn update_leaderboard_index(&mut self, provider: AccountId, stats: &ProviderPerformance)
        ensures
            forall|k: LeaderboardKey|
                #[trigger] final(self).index_view(k) == upserted(old(self).index_view(k), entry_of(provider, *stats), k),
            forall|k: LeaderboardKey| index_wf(#[trigger] final(self).index_view(k), k),
    {
        proof {
            use_type_invariant(&*self);
        }
        let entry = IndexEntry {
            provider,
            success_rate: stats.success_rate,
            total_volume: stats.total_volume,
            total_signals: stats.total_signals,
        };
        let mut sr_index: Vec<IndexEntry> = Vec::new();
        std::mem::swap(&mut sr_index, &mut self.success_rate_index);
        proof {
            law_upsert_keeps_index_well_formed(sr_index@, entry, LeaderboardKey::SuccessRateIndex);
        }
        upsert_sorted(&mut sr_index, entry, LeaderboardKey::SuccessRateIndex);
        self.success_rate_index = sr_index;

        let mut vol_index: Vec<IndexEntry> = Vec::new();
        std::mem::swap(&mut vol_index, &mut self.volume_index);
        proof {
            law_upsert_keeps_index_well_formed(vol_index@, entry, LeaderboardKey::VolumeIndex);
        }
        upsert_sorted(&mut vol_index, entry, LeaderboardKey::VolumeIndex);
        self.volume_index = vol_index;
        proof {
            assert forall|k: LeaderboardKey|
                #[trigger] self.index_view(k) == upserted(old(self).index_view(k), entry_of(provider, *stats), k) by {
                match k {
                    LeaderboardKey::SuccessRateIndex => {},
                    LeaderboardKey::VolumeIndex => {},
                }
            }
            use_type_invariant(&*self);
            assert forall|k: LeaderboardKey| index_wf(#[trigger] self.index_view(k), k) by {
                match k {
                    LeaderboardKey::SuccessRateIndex => {},
                    LeaderboardKey::VolumeIndex => {},
                }
            }
        }
    }

    /// Up to `limit` rows of the `metric` leaderboard, best first, ranked from 1.
    /// `limit == 0` means `DEFAULT_LEADERBOARD_LIMIT`; larger limits are capped
    /// at `MAX_LEADERBOARD_LIMIT`; the followers leaderboard is empty.
    pub fn get_leaderboard(&self, metric: LeaderboardMetric, limit: u32) -> (r: Vec<ProviderLeaderboard>)
        ensures
            r@ == leaderboard_rows(
                self.index_view(LeaderboardKey::SuccessRateIndex),
                self.index_view(LeaderboardKey::VolumeIndex),
                metric,
                limit,
            ),
            forall|k: LeaderboardKey| index_wf(#[trigger] self.index_view(k), k),
    {
        proof {
            use_type_invariant(self);
            assert forall|k: LeaderboardKey| index_wf(#[trigger] self.index_view(k), k) by {
                match k {
                    LeaderboardKey::SuccessRateIndex => {},
                    LeaderboardKey::VolumeIndex => {},
                }
            }
        }
        let ghost expected = leaderboard_rows(
            self.index_view(LeaderboardKey::SuccessRateIndex),
            self.index_view(LeaderboardKey::VolumeIndex),
            metric,
            limit,
        );
        if metric == LeaderboardMetric::Followers {
            let r: Vec<ProviderLeaderboard> = Vec::new();
            proof {
                assert(r@ =~= expected);
            }
            return r;
        }
        let limit = if limit == 0 {
            DEFAULT_LEADERBOARD_LIMIT
        } else if limit < MAX_LEADERBOARD_LIMIT {
            limit
        } else {
            MAX_LEADERBOARD_LIMIT
        };
        let index = match metric {
            LeaderboardMetric::SuccessRate => &self.success_rate_index,
            _ => &self.volume_index,
        };
        let take: usize = if (limit as usize) < index.len() {
            limit as usize
        } else {
            index.len()
        };
        proof {
            assert(take == expected.len());
            assert forall|j: int| 0 <= j < take implies #[trigger] expected[j] == row_of(index@[j], j + 1) by {}
        }
        let mut result: Vec<ProviderLeaderboard> = Vec::new();
        for i in 0..take
            invariant
                take <= index@.len(),
                take <= MAX_LEADERBOARD_LIMIT,
                take == expected.len(),
                index@ == (match metric {
                    LeaderboardMetric::SuccessRate => self.index_view(LeaderboardKey::SuccessRateIndex),
                    _ => self.index_view(LeaderboardKey::VolumeIndex),
                }),
                forall|j: int| 0 <= j < result@.len() ==> #[trigger] result@[j] == expected[j],
                result@.len() == i,
                forall|j: int| 0 <= j < take ==> #[trigger] expected[j] == row_of(index@[j], j + 1),
        {
            let e = index[i];
            let rank: u32 = (i + 1) as u32;
            result.push(ProviderLeaderboard {
                rank,
                provider: e.provider,
                success_rate: e.success_rate,
                total_volume: e.total_volume,
                total_signals: e.total_signals,
            });
        }
        proof {
            assert(result@ =~= expected);
        }
        result
    }
}

} // verus!
