//! Counting what an ingest did, summing the counts of parallel workers, and
//! deciding what removing an item whose file has gone takes.

use vstd::prelude::*;
use crate::text::chars_of;

verus! {

/// Counters produced by item ingestion.
#[derive(Debug, Clone, Copy, PartialEq, Eq, Default, Structural)]
pub struct IngestStats {
    pub processed: u64,
    pub upserted: u64,
    pub skipped_duplicates: u64,
    pub skipped_unread: u64,
    pub errors: u64,
    pub stats_invalidated: u64,
}

/// The counters as whole numbers.
pub struct StatsCount {
    pub processed: int,
    pub upserted: int,
    pub skipped_duplicates: int,
    pub skipped_unread: int,
    pub errors: int,
    pub stats_invalidated: int,
}

impl View for IngestStats {
    type V = StatsCount;

    open spec fn view(&self) -> StatsCount {
        StatsCount {
            processed: self.processed as int,
            upserted: self.upserted as int,
            skipped_duplicates: self.skipped_duplicates as int,
            skipped_unread: self.skipped_unread as int,
            errors: self.errors as int,
            stats_invalidated: self.stats_invalidated as int,
        }
    }
}

/// No item counted.
pub open spec fn zero_count() -> StatsCount {
    StatsCount { processed: 0, upserted: 0, skipped_duplicates: 0, skipped_unread: 0, errors: 0, stats_invalidated: 0 }
}

/// Each counter of `a` plus the same counter of `b`.
pub open spec fn add_counts(a: StatsCount, b: StatsCount) -> StatsCount {
    StatsCount {
        processed: a.processed + b.processed,
        upserted: a.upserted + b.upserted,
        skipped_duplicates: a.skipped_duplicates + b.skipped_duplicates,
        skipped_unread: a.skipped_unread + b.skipped_unread,
        errors: a.errors + b.errors,
        stats_invalidated: a.stats_invalidated + b.stats_invalidated,
    }
}

/// Every counter fits in a `u64`.
pub open spec fn fits(c: StatsCount) -> bool {
    &&& 0 <= c.processed <= u64::MAX
    &&& 0 <= c.upserted <= u64::MAX
    &&& 0 <= c.skipped_duplicates <= u64::MAX
    &&& 0 <= c.skipped_unread <= u64::MAX
    &&& 0 <= c.errors <= u64::MAX
    &&& 0 <= c.stats_invalidated <= u64::MAX
}

impl IngestStats {
    /// Adds the counters of `other` to these.
    pub fn merge(&mut self, other: IngestStats)
        requires
            fits(add_counts(old(self)@, other@)),
        ensures
            final(self)@ == add_counts(old(self)@, other@),
    {
        self.processed = self.processed + other.processed;
        self.upserted = self.upserted + other.upserted;
        self.skipped_duplicates = self.skipped_duplicates + other.skipped_duplicates;
        self.skipped_unread = self.skipped_unread + other.skipped_unread;
        self.errors = self.errors + other.errors;
        self.stats_invalidated = self.stats_invalidated + other.stats_invalidated;
    }

    /// No item counted.
    pub fn zero() -> (r: IngestStats)
        ensures
            r@ == zero_count(),
    {
        IngestStats { processed: 0, upserted: 0, skipped_duplicates: 0, skipped_unread: 0, errors: 0, stats_invalidated: 0 }
    }
}

/// Merging nothing changes nothing.
pub proof fn merge_with_zero_is_identity(a: StatsCount)
    ensures
        add_counts(a, zero_count()) == a,
        add_counts(zero_count(), a) == a,
{
}

/// The order in which counters are merged does not matter.
pub proof fn merge_commutes(a: StatsCount, b: StatsCount)
    ensures
        add_counts(a, b) == add_counts(b, a),
{
}

/// Nor does the grouping.
pub proof fn merge_associates(a: StatsCount, b: StatsCount, c: StatsCount)
    ensures
        add_counts(add_counts(a, b), c) == add_counts(a, add_counts(b, c)),
{
}

/// The counters of all workers added up.
pub open spec fn total_count(s: Seq<StatsCount>) -> StatsCount
    decreases s.len(),
{
    if s.len() == 0 {
        zero_count()
    } else {
        add_counts(total_count(s.drop_last()), s.last())
    }
}

pub open spec fn counts_of(s: Seq<IngestStats>) -> Seq<StatsCount> {
    s.map_values(|x: IngestStats| x@)
}

/// What an ingest of `n_items` items reports from its workers' counters:
/// their sum, with every item counted as processed.
pub open spec fn ingest_report(workers: Seq<IngestStats>, n_items: int) -> StatsCount {
    if n_items == 0 {
        zero_count()
    } else {
        StatsCount { processed: n_items, ..total_count(counts_of(workers)) }
    }
}

/// Every counter of a partial sum is at most that of the whole.
proof fn lemma_total_grows(s: Seq<StatsCount>, k: int)
    requires
        0 <= k <= s.len(),
        forall|i: int| 0 <= i < s.len() ==> fits(#[trigger] s[i]),
    ensures
        fits(total_count(s)) ==> fits(total_count(s.take(k))),
        total_count(s.take(k)).upserted <= total_count(s).upserted,
        total_count(s.take(k)).processed <= total_count(s).processed,
        total_count(s.take(k)).skipped_duplicates <= total_count(s).skipped_duplicates,
        total_count(s.take(k)).skipped_unread <= total_count(s).skipped_unread,
        total_count(s.take(k)).errors <= total_count(s).errors,
        total_count(s.take(k)).stats_invalidated <= total_count(s).stats_invalidated,
        0 <= total_count(s.take(k)).processed,
        0 <= total_count(s.take(k)).upserted,
        0 <= total_count(s.take(k)).skipped_duplicates,
        0 <= total_count(s.take(k)).skipped_unread,
        0 <= total_count(s.take(k)).errors,
        0 <= total_count(s.take(k)).stats_invalidated,
    decreases s.len(),
{
    if s.len() == 0 {
        assert(s.take(k) =~= s);
    } else if k == s.len() {
        assert(s.take(k) =~= s);
        lemma_total_grows(s.drop_last(), k - 1);
        assert(s.drop_last().take(k - 1) =~= s.drop_last());
    } else {
        lemma_total_grows(s.drop_last(), k);
        assert(s.drop_last().take(k) =~= s.take(k));
    }
}

/// The report of an ingest of `n_items` items from the counters of its
/// workers, where their sum fits in `u64` counters.
pub fn ingest_totals(workers: &Vec<IngestStats>, n_items: u64) -> (r: IngestStats)
    requires
        fits(total_count(counts_of(workers@))),
    ensures
        r@ == ingest_report(workers@, n_items as int),
{
    if n_items == 0 {
        return IngestStats::zero();
    }
    let ghost cs = counts_of(workers@);
    let mut total = IngestStats::zero();
    let mut i: usize = 0;
    while i < workers.len()
        invariant
            cs == counts_of(workers@),
            i <= workers@.len(),
            total@ == total_count(cs.take(i as int)),
            fits(total_count(cs)),
        decreases workers@.len() - i,
    {
        proof {
            assert(cs.take(i + 1).drop_last() =~= cs.take(i as int));
            assert(forall|j: int| 0 <= j < cs.len() ==> fits(#[trigger] cs[j]));
            lemma_total_grows(cs, i + 1);
        }
        total.merge(workers[i]);
        i = i + 1;
    }
    assert(cs.take(workers@.len() as int) =~= cs);
    total.processed = n_items;
    total
}

/// Summary of a library sync: what changed since the last run.
#[derive(Debug, Clone, Copy, PartialEq, Eq, Default)]
pub struct LibrarySyncResult {
    pub unchanged: u64,
    pub changed: u64,
    pub added: u64,
    pub removed: u64,
    /// The counters of the ingest, where anything was ingested.
    pub ingest_stats: Option<IngestStats>,
}

// ── Removing an item whose file has gone ──────────────────────────────

/// An item id of the canonical form: 32 lowercase hexadecimal digits.
pub open spec fn is_canonical_id(id: Seq<char>) -> bool {
    &&& id.len() == 32
    &&& forall|i: int| 0 <= i < id.len() ==> ('0' <= #[trigger] id[i] <= '9' || 'a' <= id[i] <= 'f')
}

/// Whether `item_id` has the canonical form, the only form under which a
/// cover file is named after it.
pub fn is_canonical_item_id(item_id: &str) -> (r: bool)
    ensures
        r == is_canonical_id(item_id@),
{
    let c = chars_of(item_id);
    if c.len() != 32 {
        return false;
    }
    let mut i: usize = 0;
    while i < c.len()
        invariant
            c@ == item_id@,
            i <= c@.len(),
            forall|j: int| 0 <= j < i ==> ('0' <= #[trigger] c@[j] <= '9' || 'a' <= c@[j] <= 'f'),
        decreases c@.len() - i,
    {
        let ch = c[i];
        if !(('0' <= ch && ch <= '9') || ('a' <= ch && ch <= 'f')) {
            return false;
        }
        i = i + 1;
    }
    true
}

/// What removing an item takes.
#[derive(Debug, Clone, Copy, PartialEq, Eq, Structural)]
pub struct RemovalPlan {
    /// Keep the item and its annotations, marked as missing its file.
    pub mark_missing: bool,
    /// Delete the item, and with it its annotations.
    pub delete_item: bool,
    /// Delete the item's cover file.
    pub remove_cover: bool,
    /// Delete the links through which the server offers the item's file.
    pub remove_file_links: bool,
}

/// What removing the item `item_id` whose file has gone takes. Retained,
/// the item keeps its row, its annotations and its cover, and is marked
/// missing; else it is deleted, with the cover named after a canonical id.
/// Either way the links to its file go where the server offers files: a
/// link that cannot be served is worse than none.
pub fn removal_plan(item_id: &str, is_internal_server: bool, retain_missing: bool) -> (r: RemovalPlan)
    ensures
        r.mark_missing == retain_missing,
        r.delete_item == !retain_missing,
        r.remove_cover == (!retain_missing && is_canonical_id(item_id@)),
        r.remove_file_links == is_internal_server,
{
    if retain_missing {
        RemovalPlan { mark_missing: true, delete_item: false, remove_cover: false, remove_file_links: is_internal_server }
    } else {
        RemovalPlan {
            mark_missing: false,
            delete_item: true,
            remove_cover: is_canonical_item_id(item_id),
            remove_file_links: is_internal_server,
        }
    }
}


/// What follows the database step of a removal (marking the item missing,
/// or deleting it).
#[derive(Debug, Clone, Copy, PartialEq, Eq, Structural)]
pub struct RemovalFollowUp {
    pub remove_cover: bool,
    pub remove_file_links: bool,
    /// Whether the item counts as removed.
    pub removed: bool,
}

/// After the database step of `plan`: where it failed, nothing else is
/// touched and the item does not count as removed; where it succeeded, the
/// cover and the file links go as the plan says.
pub fn removal_follow_up(plan: &RemovalPlan, database_step_succeeded: bool) -> (r: RemovalFollowUp)
    ensures
        r.removed == database_step_succeeded,
        r.remove_cover == (database_step_succeeded && plan.remove_cover),
        r.remove_file_links == (database_step_succeeded && plan.remove_file_links),
{
    RemovalFollowUp {
        remove_cover: database_step_succeeded && plan.remove_cover,
        remove_file_links: database_step_succeeded && plan.remove_file_links,
        removed: database_step_succeeded,
    }
}

} // verus!
