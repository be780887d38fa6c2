//! What a collection run measures of a repository, and the messages that
//! drive collection.
use std::time::Duration;

use vstd::prelude::*;

verus! {

/// Asks the collector supervisor to have every worker collect once.
#[derive(Clone, Copy, Debug)]
pub struct RequestCollectionMessage;

/// Asks a collector worker to collect its repository's metrics.
#[derive(Clone, Copy, Debug)]
pub struct CollectMetricsMessage;

/// Asks a collector worker to collect its repository's metrics.
#[derive(Clone, Copy, Debug)]
pub struct CollectMetrics;

/// Names a repository; metrics are kept per repository reference.
#[derive(Clone, Debug, Hash)]
pub struct RepositoryRef(pub String);

impl PartialEq for RepositoryRef {
    fn eq(&self, other: &Self) -> (equal: bool) {
        self.0 == other.0
    }
}

impl vstd::std_specs::cmp::PartialEqSpecImpl for RepositoryRef {
    open spec fn obeys_eq_spec() -> bool {
        true
    }

    open spec fn eq_spec(&self, other: &Self) -> bool {
        self.0@ == other.0@
    }
}

impl Eq for RepositoryRef {

}

impl RepositoryRef {
    /// A second reference to the same repository.
    pub fn duplicate(&self) -> (copy: RepositoryRef)
        ensures
            copy.0@ == self.0@,
    {
        RepositoryRef(self.0.clone())
    }
}

/// What one collection run found out about a repository.
pub struct RepositoryMetricsSnapshot {
    /// The number of snapshots in the repository.
    pub total_snapshots: usize,
    /// Whether the integrity check found no severe error.
    pub check_result: bool,
    /// The number of blobs in the index.
    pub blob_count_total: u64,
    /// The stored (compressed and encrypted) size of all blobs.
    pub blob_size_total: u64,
    /// The raw size of all blobs.
    pub blob_size_uncompressed_total: u64,
}

/// How long a collection run took.
pub struct ScrapeMetricsSnapshot {
    /// The time the run took.
    pub scrape_duration: Duration,
}

/// The totals of one kind of blob in a repository index: how many there are,
/// their stored size and their raw size.
#[derive(Clone, Copy, Debug, PartialEq, Eq, Structural)]
pub struct BlobCounts {
    /// The number of blobs.
    pub count: u64,
    /// Their size as stored, after compression and encryption.
    pub size: u64,
    /// Their raw size.
    pub data_size: u64,
}

/// The sums of the counts, the stored sizes and the raw sizes of `blobs`.
pub open spec fn blob_totals(blobs: Seq<BlobCounts>) -> (int, int, int)
    decreases blobs.len(),
{
    if blobs.len() == 0 {
        (0, 0, 0)
    } else {
        let rest = blob_totals(blobs.drop_last());
        (
            rest.0 + blobs.last().count,
            rest.1 + blobs.last().size,
            rest.2 + blobs.last().data_size,
        )
    }
}

/// Whether every one of the three totals of `blobs` fits in a `u64`.
pub open spec fn blob_totals_fit(blobs: Seq<BlobCounts>) -> bool {
    let t = blob_totals(blobs);
    t.0 <= u64::MAX && t.1 <= u64::MAX && t.2 <= u64::MAX
}

/// The totals never decrease as blobs are added.
pub proof fn lemma_blob_totals_monotonic(blobs: Seq<BlobCounts>, n: int)
    requires
        0 <= n <= blobs.len(),
    ensures
        blob_totals(blobs.take(n)).0 <= blob_totals(blobs).0,
        blob_totals(blobs.take(n)).1 <= blob_totals(blobs).1,
        blob_totals(blobs.take(n)).2 <= blob_totals(blobs).2,
        0 <= blob_totals(blobs.take(n)).0,
        0 <= blob_totals(blobs.take(n)).1,
        0 <= blob_totals(blobs.take(n)).2,
    decreases blobs.len(),
{
    if n == blobs.len() {
        assert(blobs.take(n) =~= blobs);
        lemma_blob_totals_nonnegative(blobs);
    } else {
        assert(blobs.take(n) =~= blobs.drop_last().take(n));
        lemma_blob_totals_monotonic(blobs.drop_last(), n);
    }
}

/// The totals are never negative.
pub proof fn lemma_blob_totals_nonnegative(blobs: Seq<BlobCounts>)
    ensures
        0 <= blob_totals(blobs).0,
        0 <= blob_totals(blobs).1,
        0 <= blob_totals(blobs).2,
    decreases blobs.len(),
{
    if blobs.len() > 0 {
        lemma_blob_totals_nonnegative(blobs.drop_last());
    }
}

/// The totals of two lists of blob counts taken together are the sums of
/// their totals.
pub proof fn law_blob_totals_of_joined_lists(first: Seq<BlobCounts>, second: Seq<BlobCounts>)
    ensures
        blob_totals(first + second).0 == blob_totals(first).0 + blob_totals(second).0,
        blob_totals(first + second).1 == blob_totals(first).1 + blob_totals(second).1,
        blob_totals(first + second).2 == blob_totals(first).2 + blob_totals(second).2,
    decreases second.len(),
{
    if second.len() == 0 {
        assert(first + second =~= first);
    } else {
        assert((first + second).drop_last() =~= first + second.drop_last());
        assert((first + second).last() == second.last());
        law_blob_totals_of_joined_lists(first, second.drop_last());
    }
}

/// Adds up the counts, stored sizes and raw sizes of all blobs, or gives
/// `None` where one of the three sums does not fit in a `u64`.
pub fn checked_blob_totals(blobs: &Vec<BlobCounts>) -> (totals: Option<(u64, u64, u64)>)
    ensures
        match totals {
            Some(t) => blob_totals_fit(blobs@) && blob_totals(blobs@) == (
                t.0 as int,
                t.1 as int,
                t.2 as int,
            ),
            None => !blob_totals_fit(blobs@),
        },
{
    let mut count: u64 = 0;
    let mut size: u64 = 0;
    let mut data_size: u64 = 0;
    let mut i: usize = 0;
    assert(blobs@.take(0) =~= Seq::<BlobCounts>::empty());
    while i < blobs.len()
        invariant
            i <= blobs@.len(),
            blob_totals(blobs@.take(i as int)) == (count as int, size as int, data_size as int),
        decreases blobs@.len() - i,
    {
        let blob = blobs[i];
        assert(blobs@.take(i + 1).drop_last() =~= blobs@.take(i as int));
        assert(blobs@.take(i + 1).last() == blob);
        let next_count = count.checked_add(blob.count);
        let next_size = size.checked_add(blob.size);
        let next_data_size = data_size.checked_add(blob.data_size);
        if next_count.is_none() || next_size.is_none() || next_data_size.is_none() {
            proof {
                lemma_blob_totals_monotonic(blobs@, i + 1);
            }
            return None;
        }
        count = next_count.unwrap();
        size = next_size.unwrap();
        data_size = next_data_size.unwrap();
        i = i + 1;
    }
    assert(blobs@.take(i as int) =~= blobs@);
    Some((count, size, data_size))
}

/// Adds up the counts, stored sizes and raw sizes of all blobs.
pub fn blob_totals_of(blobs: &Vec<BlobCounts>) -> (totals: (u64, u64, u64))
    requires
        blob_totals_fit(blobs@),
    ensures
        blob_totals(blobs@) == (totals.0 as int, totals.1 as int, totals.2 as int),
{
    match checked_blob_totals(blobs) {
        Some(t) => t,
        None => (0, 0, 0),
    }
}

/// What a collection run reports of a repository: its number of snapshots,
/// the outcome of its integrity check and the totals of its index's blobs.
pub open spec fn repository_snapshot_matches(
    snapshot: RepositoryMetricsSnapshot,
    total_snapshots: usize,
    check_result: bool,
    blobs: Seq<BlobCounts>,
) -> bool {
    let t = blob_totals(blobs);
    &&& snapshot.total_snapshots == total_snapshots
    &&& snapshot.check_result == check_result
    &&& snapshot.blob_count_total == t.0
    &&& snapshot.blob_size_total == t.1
    &&& snapshot.blob_size_uncompressed_total == t.2
}

/// The metrics of one collection run, from the number of snapshots, the
/// outcome of the integrity check and the blob counts of the index.
pub fn repository_metrics_snapshot(
    total_snapshots: usize,
    check_result: bool,
    blobs: &Vec<BlobCounts>,
) -> (snapshot: RepositoryMetricsSnapshot)
    requires
        blob_totals_fit(blobs@),
    ensures
        repository_snapshot_matches(snapshot, total_snapshots, check_result, blobs@),
{
    let (count, size, data_size) = blob_totals_of(blobs);
    RepositoryMetricsSnapshot {
        total_snapshots,
        check_result,
        blob_count_total: count,
        blob_size_total: size,
        blob_size_uncompressed_total: data_size,
    }
}

/// The metrics of one collection run, or `None` where a blob total does not
/// fit in a `u64`.
pub fn checked_repository_metrics_snapshot(
    total_snapshots: usize,
    check_result: bool,
    blobs: &Vec<BlobCounts>,
) -> (snapshot: Option<RepositoryMetricsSnapshot>)
    ensures
        match snapshot {
            Some(s) => blob_totals_fit(blobs@) && repository_snapshot_matches(
                s,
                total_snapshots,
                check_result,
                blobs@,
            ),
            None => !blob_totals_fit(blobs@),
        },
{
    match checked_blob_totals(blobs) {
        Some(_) => Some(repository_metrics_snapshot(total_snapshots, check_result, blobs)),
        None => None,
    }
}

/// The sum of a list of sizes.
pub open spec fn size_total(sizes: Seq<u64>) -> int
    decreases sizes.len(),
{
    if sizes.len() == 0 {
        0
    } else {
        size_total(sizes.drop_last()) + sizes.last()
    }
}

/// The sum of a list of sizes never falls below that of a prefix.
proof fn lemma_size_total_monotonic(sizes: Seq<u64>, n: int)
    requires
        0 <= n <= sizes.len(),
    ensures
        0 <= size_total(sizes.take(n)) <= size_total(sizes),
    decreases sizes.len(),
{
    if n == sizes.len() {
        assert(sizes.take(n) =~= sizes);
        if n > 0 {
            lemma_size_total_monotonic(sizes.drop_last(), n - 1);
            assert(sizes.drop_last().take(n - 1) =~= sizes.drop_last());
        }
    } else {
        assert(sizes.take(n) =~= sizes.drop_last().take(n));
        lemma_size_total_monotonic(sizes.drop_last(), n);
    }
}

/// The total size of a repository's files, or `None` where it does not fit in
/// a `u64`.
pub fn checked_file_size_total(sizes: &Vec<u64>) -> (total: Option<u64>)
    ensures
        match total {
            Some(t) => size_total(sizes@) == t as int,
            None => size_total(sizes@) > u64::MAX,
        },
{
    let mut total: u64 = 0;
    let mut i: usize = 0;
    assert(sizes@.take(0) =~= Seq::<u64>::empty());
    while i < sizes.len()
        invariant
            i <= sizes@.len(),
            size_total(sizes@.take(i as int)) == total as int,
        decreases sizes@.len() - i,
    {
        assert(sizes@.take(i + 1).drop_last() =~= sizes@.take(i as int));
        match total.checked_add(sizes[i]) {
            Some(t) => {
                total = t;
            },
            None => {
                proof {
                    lemma_size_total_monotonic(sizes@, i + 1);
                }
                return None;
            },
        }
        i = i + 1;
    }
    assert(sizes@.take(i as int) =~= sizes@);
    Some(total)
}

} // verus!
