//! A store of repository gauges that registers each gauge the first time a
//! value is set on it.
use rustic_core::CheckResults;
use vstd::prelude::*;

use crate::metrics::{GaugeReading, GaugeUpdate, MetricKey, MetricKeyView};
use crate::option_table::pairs_view;

verus! {

/// Declares `rustic_core::CheckResults` to Verus as an opaque type.
#[verifier::external_type_specification]
#[verifier::external_body]
pub struct ExCheckResults(CheckResults);

/// The severity of a finding of an integrity check.
#[derive(Clone, Copy, Debug, PartialEq, Eq, Structural)]
pub enum FindingLevel {
    /// Something is strange, but the repository's integrity is not affected.
    Warn,
    /// Something in the repository is not as it should be.
    Error,
}

/// The severity levels of the findings that a check result holds, in order.
pub uninterp spec fn check_finding_levels(results: CheckResults) -> Seq<FindingLevel>;

/// A check passes when none of its findings has the level `Error`.
pub open spec fn check_results_pass(results: CheckResults) -> bool {
    !check_finding_levels(results).contains(FindingLevel::Error)
}

/// `rustic_core::CheckResults::is_ok`: `Ok` exactly when none of the findings
/// has the level `Error`.
#[verifier::external_body]
fn check_passed(results: &CheckResults) -> (passed: bool)
    ensures
        passed == !check_finding_levels(*results).contains(FindingLevel::Error),
{
    results.is_ok().is_ok()
}

/// Whether an integrity check found no error-level problem.
pub fn check_results_passed(results: &CheckResults) -> (passed: bool)
    ensures
        passed == check_results_pass(*results),
{
    check_passed(results)
}

/// The gauges that a `MetricStore` can hold.
#[derive(Clone, Copy, Debug, PartialEq, Eq, Structural)]
pub enum StoreGauge {
    TotalSnapshots,
    CheckSuccess,
    LocksTotal,
    ScrapeDurationSeconds,
    SizeTotal,
    UncompressedSizeTotal,
    CompressionRatio,
    BlobCountTotal,
}

/// The exported name of a gauge.
pub open spec fn store_gauge_name(gauge: StoreGauge) -> Seq<char> {
    match gauge {
        StoreGauge::TotalSnapshots => "restic.snapshots_total"@,
        StoreGauge::CheckSuccess => "restic.check_success"@,
        StoreGauge::LocksTotal => "restic.locks_total"@,
        StoreGauge::ScrapeDurationSeconds => "restic.scrape_duration_seconds"@,
        StoreGauge::SizeTotal => "restic.size_total"@,
        StoreGauge::UncompressedSizeTotal => "restic.uncompressed_size_total"@,
        StoreGauge::CompressionRatio => "restic.compression_ratio"@,
        StoreGauge::BlobCountTotal => "restic.blob_count_total"@,
    }
}

/// No two gauges share an exported name, so a name tells its gauge.
pub proof fn law_gauge_names_are_distinct(first: StoreGauge, second: StoreGauge)
    ensures
        store_gauge_name(first) == store_gauge_name(second) ==> first == second,
{
    if store_gauge_name(first) == store_gauge_name(second) {
        reveal_strlit("restic.snapshots_total");
        reveal_strlit("restic.check_success");
        reveal_strlit("restic.locks_total");
        reveal_strlit("restic.scrape_duration_seconds");
        reveal_strlit("restic.size_total");
        reveal_strlit("restic.uncompressed_size_total");
        reveal_strlit("restic.compression_ratio");
        reveal_strlit("restic.blob_count_total");
        assert(store_gauge_name(first).len() == store_gauge_name(second).len());
        assert(store_gauge_name(first)[7] == store_gauge_name(second)[7]);
    }
}

/// Repository gauges with common labels, each registered on its first use.
/// Every registered gauge has its exported name and the common labels.
pub struct MetricStore {
    common_labels: Vec<(String, String)>,
    total_snapshots: Option<MetricKey>,
    check_success: Option<MetricKey>,
    locks_total: Option<MetricKey>,
    scrape_duration_seconds: Option<MetricKey>,
    size_total: Option<MetricKey>,
    uncompressed_size_total: Option<MetricKey>,
    compression_ratio: Option<MetricKey>,
    blob_count_total: Option<MetricKey>,
}

/// The key of a gauge, and the slot that holds it afterwards: the key already
/// in `slot`, or a new key with `name` and `labels`.
fn resolve_slot(slot: &Option<MetricKey>, name: &str, labels: &Vec<(String, String)>) -> (resolved: (
    MetricKey,
    Option<MetricKey>,
))
    ensures
        resolved.1 is Some,
        resolved.0@ == resolved.1->0@,
        slot is Some ==> resolved.1->0@ == slot->0@,
        slot is None ==> resolved.1->0@ == (name@, pairs_view(labels@)),
{
    match slot {
        Some(key) => (key.copy(), Some(key.copy())),
        None => {
            let key = MetricKey::new(name, labels);
            (key.copy(), Some(key))
        },
    }
}

/// The key of `gauge` (the gauge registered by `set`) is its exported name with
/// `labels`.
pub open spec fn names_gauge(key: MetricKeyView, gauge: StoreGauge, labels: Seq<(Seq<char>, Seq<char>)>) -> bool {
    key == (store_gauge_name(gauge), labels)
}

/// A slot holds, if anything, the key of `gauge` with `labels`.
pub open spec fn slot_named(slot: Option<MetricKey>, gauge: StoreGauge, labels: Seq<(Seq<char>, Seq<char>)>) -> bool {
    slot matches Some(key) ==> names_gauge(key@, gauge, labels)
}

/// After a value is set on `gauge`, the store `after` has that gauge
/// registered, its labels unchanged, and `key` is the gauge's key: its
/// exported name with the store's labels.
pub open spec fn registers(
    before: MetricStore,
    after: MetricStore,
    gauge: StoreGauge,
    key: MetricKeyView,
) -> bool {
    &&& after.labels() == before.labels()
    &&& after.registered() == before.registered().insert(gauge)
    &&& names_gauge(key, gauge, before.labels())
}

impl MetricStore {
    /// The slot of a gauge.
    closed spec fn slot(&self, gauge: StoreGauge) -> Option<MetricKey> {
        match gauge {
            StoreGauge::TotalSnapshots => self.total_snapshots,
            StoreGauge::CheckSuccess => self.check_success,
            StoreGauge::LocksTotal => self.locks_total,
            StoreGauge::ScrapeDurationSeconds => self.scrape_duration_seconds,
            StoreGauge::SizeTotal => self.size_total,
            StoreGauge::UncompressedSizeTotal => self.uncompressed_size_total,
            StoreGauge::CompressionRatio => self.compression_ratio,
            StoreGauge::BlobCountTotal => self.blob_count_total,
        }
    }

    /// The labels that every gauge of the store carries.
    pub closed spec fn labels(&self) -> Seq<(Seq<char>, Seq<char>)> {
        pairs_view(self.common_labels@)
    }

    /// The gauges registered so far.
    pub closed spec fn registered(&self) -> Set<StoreGauge> {
        Set::new(|gauge: StoreGauge| self.slot(gauge) is Some)
    }

    #[verifier::type_invariant]
    closed spec fn registered_gauges_named(&self) -> bool {
        let labels = self.labels();
        &&& slot_named(self.total_snapshots, StoreGauge::TotalSnapshots, labels)
        &&& slot_named(self.check_success, StoreGauge::CheckSuccess, labels)
        &&& slot_named(self.locks_total, StoreGauge::LocksTotal, labels)
        &&& slot_named(self.scrape_duration_seconds, StoreGauge::ScrapeDurationSeconds, labels)
        &&& slot_named(self.size_total, StoreGauge::SizeTotal, labels)
        &&& slot_named(self.uncompressed_size_total, StoreGauge::UncompressedSizeTotal, labels)
        &&& slot_named(self.compression_ratio, StoreGauge::CompressionRatio, labels)
        &&& slot_named(self.blob_count_total, StoreGauge::BlobCountTotal, labels)
    }

    /// A store with `common_labels` and no gauge registered yet.
    pub fn new(common_labels: Vec<(String, String)>) -> (store: MetricStore)
        ensures
            store.labels() == pairs_view(common_labels@),
            store.registered() == Set::<StoreGauge>::empty(),
    {
        let store = MetricStore {
            common_labels,
            total_snapshots: None,
            check_success: None,
            locks_total: None,
            scrape_duration_seconds: None,
            size_total: None,
            uncompressed_size_total: None,
            compression_ratio: None,
            blob_count_total: None,
        };
        assert(store.registered() =~= Set::<StoreGauge>::empty());
        store
    }

    /// The labels that every gauge of the store carries.
    pub fn common_labels(&self) -> (labels: &Vec<(String, String)>)
        ensures
            pairs_view(labels@) == self.labels(),
    {
        &self.common_labels
    }

    /// Whether a value has been set on `gauge`.
    pub fn is_registered(&self, gauge: StoreGauge) -> (registered: bool)
        ensures
            registered == self.registered().contains(gauge),
    {
        match gauge {
            StoreGauge::TotalSnapshots => self.total_snapshots.is_some(),
            StoreGauge::CheckSuccess => self.check_success.is_some(),
            StoreGauge::LocksTotal => self.locks_total.is_some(),
            StoreGauge::ScrapeDurationSeconds => self.scrape_duration_seconds.is_some(),
            StoreGauge::SizeTotal => self.size_total.is_some(),
            StoreGauge::UncompressedSizeTotal => self.uncompressed_size_total.is_some(),
            StoreGauge::CompressionRatio => self.compression_ratio.is_some(),
            StoreGauge::BlobCountTotal => self.blob_count_total.is_some(),
        }
    }

    /// The key of a gauge, registered on first use.
    fn gauge(&mut self, which: StoreGauge) -> (key: MetricKey)
        ensures
            registers(*old(self), *final(self), which, key@),
    {
        proof {
            use_type_invariant(&*self);
        }
        let key = match which {
            StoreGauge::TotalSnapshots => {
                let (key, slot) = resolve_slot(&self.total_snapshots, "restic.snapshots_total", &self.common_labels);
                self.total_snapshots = slot;
                key
            },
            StoreGauge::CheckSuccess => {
                let (key, slot) = resolve_slot(&self.check_success, "restic.check_success", &self.common_labels);
                self.check_success = slot;
                key
            },
            StoreGauge::LocksTotal => {
                let (key, slot) = resolve_slot(&self.locks_total, "restic.locks_total", &self.common_labels);
                self.locks_total = slot;
                key
            },
            StoreGauge::ScrapeDurationSeconds => {
                let (key, slot) = resolve_slot(&self.scrape_duration_seconds, "restic.scrape_duration_seconds", &self.common_labels);
                self.scrape_duration_seconds = slot;
                key
            },
            StoreGauge::SizeTotal => {
                let (key, slot) = resolve_slot(&self.size_total, "restic.size_total", &self.common_labels);
                self.size_total = slot;
                key
            },
            StoreGauge::UncompressedSizeTotal => {
                let (key, slot) = resolve_slot(&self.uncompressed_size_total, "restic.uncompressed_size_total", &self.common_labels);
                self.uncompressed_size_total = slot;
                key
            },
            StoreGauge::CompressionRatio => {
                let (key, slot) = resolve_slot(&self.compression_ratio, "restic.compression_ratio", &self.common_labels);
                self.compression_ratio = slot;
                key
            },
            StoreGauge::BlobCountTotal => {
                let (key, slot) = resolve_slot(&self.blob_count_total, "restic.blob_count_total", &self.common_labels);
                self.blob_count_total = slot;
                key
            },
        };
        assert(self.registered() =~= old(self).registered().insert(which));
        key
    }

    /// Sets the snapshot count, converted to `f32`, registering the gauge
    /// `restic.snapshots_total` on first use.
    pub fn set_total_snapshots(&mut self, value: usize) -> (update: GaugeUpdate)
        ensures
            registers(*old(self), *final(self), StoreGauge::TotalSnapshots, update.gauge@),
            update.gauge@ == ("restic.snapshots_total"@, old(self).labels()),
            update.reading == GaugeReading::SinglePrecision(value as u64),
    {
        let gauge = self.gauge(StoreGauge::TotalSnapshots);
        GaugeUpdate { gauge, reading: GaugeReading::SinglePrecision(value as u64) }
    }

    /// Sets the check outcome as 1 (passed) or 0, registering the gauge
    /// `restic.check_success` on first use.
    pub fn set_check_outcome(&mut self, passed: bool) -> (update: GaugeUpdate)
        ensures
            registers(*old(self), *final(self), StoreGauge::CheckSuccess, update.gauge@),
            update.gauge@ == ("restic.check_success"@, old(self).labels()),
            update.reading == GaugeReading::Signed(if passed { 1 } else { 0 }),
    {
        let value: i64 = if passed {
            1
        } else {
            0
        };
        let gauge = self.gauge(StoreGauge::CheckSuccess);
        GaugeUpdate { gauge, reading: GaugeReading::Signed(value) }
    }

    /// Sets the outcome of an integrity check as 1 (no severe error) or 0,
    /// registering the gauge `restic.check_success` on first use.
    pub fn set_check_success(&mut self, value: CheckResults) -> (update: GaugeUpdate)
        ensures
            registers(*old(self), *final(self), StoreGauge::CheckSuccess, update.gauge@),
            update.gauge@ == ("restic.check_success"@, old(self).labels()),
            update.reading == GaugeReading::Signed(if check_results_pass(value) { 1 } else { 0 }),
    {
        let passed = check_passed(&value);
        self.set_check_outcome(passed)
    }

    /// Sets the number of locks, registering `restic.locks_total` on first use.
    pub fn set_locks_total(&mut self, value: u8) -> (update: GaugeUpdate)
        ensures
            registers(*old(self), *final(self), StoreGauge::LocksTotal, update.gauge@),
            update.gauge@ == ("restic.locks_total"@, old(self).labels()),
            update.reading == GaugeReading::Unsigned(value as u64),
    {
        let gauge = self.gauge(StoreGauge::LocksTotal);
        GaugeUpdate { gauge, reading: GaugeReading::Unsigned(value as u64) }
    }

    /// The gauge `restic.scrape_duration_seconds`, registered on first use; the
    /// caller sets its value in seconds.
    pub fn scrape_duration_seconds_gauge(&mut self) -> (key: MetricKey)
        ensures
            registers(*old(self), *final(self), StoreGauge::ScrapeDurationSeconds, key@),
            key@ == ("restic.scrape_duration_seconds"@, old(self).labels()),
    {
        self.gauge(StoreGauge::ScrapeDurationSeconds)
    }

    /// Sets the stored size, registering `restic.size_total` on first use.
    pub fn set_size_total(&mut self, value: u64) -> (update: GaugeUpdate)
        ensures
            registers(*old(self), *final(self), StoreGauge::SizeTotal, update.gauge@),
            update.gauge@ == ("restic.size_total"@, old(self).labels()),
            update.reading == GaugeReading::Unsigned(value),
    {
        let gauge = self.gauge(StoreGauge::SizeTotal);
        GaugeUpdate { gauge, reading: GaugeReading::Unsigned(value) }
    }

    /// Sets the raw size, registering `restic.uncompressed_size_total` on first
    /// use.
    pub fn set_uncompressed_size_total(&mut self, value: u64) -> (update: GaugeUpdate)
        ensures
            registers(*old(self), *final(self), StoreGauge::UncompressedSizeTotal, update.gauge@),
            update.gauge@ == ("restic.uncompressed_size_total"@, old(self).labels()),
            update.reading == GaugeReading::Unsigned(value),
    {
        let gauge = self.gauge(StoreGauge::UncompressedSizeTotal);
        GaugeUpdate { gauge, reading: GaugeReading::Unsigned(value) }
    }

    /// Sets the number of blobs, registering `restic.blob_count_total` on first
    /// use.
    pub fn set_blob_count_total(&mut self, value: u64) -> (update: GaugeUpdate)
        ensures
            registers(*old(self), *final(self), StoreGauge::BlobCountTotal, update.gauge@),
            update.gauge@ == ("restic.blob_count_total"@, old(self).labels()),
            update.reading == GaugeReading::Unsigned(value),
    {
        let gauge = self.gauge(StoreGauge::BlobCountTotal);
        GaugeUpdate { gauge, reading: GaugeReading::Unsigned(value) }
    }

    /// The gauge `restic.compression_ratio`, registered on first use; the
    /// caller sets the ratio.
    pub fn compression_ratio_gauge(&mut self) -> (key: MetricKey)
        ensures
            registers(*old(self), *final(self), StoreGauge::CompressionRatio, key@),
            key@ == ("restic.compression_ratio"@, old(self).labels()),
    {
        self.gauge(StoreGauge::CompressionRatio)
    }
}

} // verus!
