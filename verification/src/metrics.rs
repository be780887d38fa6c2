//! The gauges exported for each repository, and the exporter that keeps one
//! store of gauges per repository and turns each report into gauge values.
//! A gauge is named here by its key, its name and its labels; registering and
//! setting it in the metrics recorder is left to the caller.
use std::time::Duration;

use vstd::prelude::*;

use crate::assoc::{keys_unique, lemma_pairs_map_lookup, lemma_pairs_map_push, pairs_map};
use crate::collector::{RepositoryMetricsSnapshot, RepositoryRef, ScrapeMetricsSnapshot};
use crate::option_table::pairs_view;

verus! {

/// The view of a gauge key: its name and its labels.
pub type MetricKeyView = (Seq<char>, Seq<(Seq<char>, Seq<char>)>);

/// The key of a gauge: its name and its labels.
#[derive(Debug, PartialEq, Eq)]
pub struct MetricKey {
    /// The gauge's name, such as `restic.snapshots_total`.
    pub name: String,
    /// The gauge's labels, as name/value pairs.
    pub labels: Vec<(String, String)>,
}

impl View for MetricKey {
    type V = MetricKeyView;

    open spec fn view(&self) -> MetricKeyView {
        (self.name@, pairs_view(self.labels@))
    }
}

/// A copy of a list of labels.
pub fn copy_labels(labels: &Vec<(String, String)>) -> (copy: Vec<(String, String)>)
    ensures
        pairs_view(copy@) == pairs_view(labels@),
{
    let mut copy: Vec<(String, String)> = Vec::new();
    let mut i: usize = 0;
    while i < labels.len()
        invariant
            i <= labels@.len(),
            copy@.len() == i,
            pairs_view(copy@) == pairs_view(labels@.take(i as int)),
        decreases labels@.len() - i,
    {
        let ghost before = copy@;
        let name = labels[i].0.clone();
        let value = labels[i].1.clone();
        copy.push((name, value));
        assert(copy@ =~= before.push((name, value)));
        assert(labels@.take(i + 1) =~= labels@.take(i as int).push(labels@[i as int]));
        assert forall|j: int| 0 <= j < i + 1 implies #[trigger] pairs_view(copy@)[j] == pairs_view(
            labels@.take(i + 1),
        )[j] by {
            if j < i {
                assert(pairs_view(before)[j] == pairs_view(labels@.take(i as int))[j]);
            }
        }
        assert(pairs_view(copy@) =~= pairs_view(labels@.take(i + 1)));
        i = i + 1;
    }
    assert(labels@.take(i as int) =~= labels@);
    copy
}

impl MetricKey {
    /// The key of the gauge `name` with `labels`.
    pub fn new(name: &str, labels: &Vec<(String, String)>) -> (key: MetricKey)
        ensures
            key@ == (name@, pairs_view(labels@)),
    {
        MetricKey { name: name.to_string(), labels: copy_labels(labels) }
    }

    /// A copy of the key.
    pub fn copy(&self) -> (key: MetricKey)
        ensures
            key@ == self@,
    {
        MetricKey { name: self.name.clone(), labels: copy_labels(&self.labels) }
    }
}

/// The value a gauge is set to, in the form the report gives it; the recorder
/// takes it as a float.
#[derive(Clone, Copy, Debug, PartialEq)]
pub enum GaugeReading {
    /// An unsigned integer, converted to `f64`.
    Unsigned(u64),
    /// A signed integer, converted to `f64`.
    Signed(i64),
    /// An unsigned integer, converted to `f32` first and then to `f64`.
    SinglePrecision(u64),
    /// A duration, in seconds as an `f32`.
    Seconds(Duration),
    /// The quotient of two integers, each converted to `f64`.
    Ratio(u64, u64),
}

/// Set the gauge with this key to this reading.
pub struct GaugeUpdate {
    /// The gauge.
    pub gauge: MetricKey,
    /// Its new value.
    pub reading: GaugeReading,
}

/// The views of a list of gauge updates.
pub open spec fn update_views(updates: Seq<GaugeUpdate>) -> Seq<(MetricKeyView, GaugeReading)> {
    updates.map_values(|u: GaugeUpdate| (u.gauge@, u.reading))
}

/// Among `updates`, the gauge named `name` is set, with `labels`, to `reading`,
/// and every update of a gauge of that name sets it to `reading`.
pub open spec fn sets_gauge(
    updates: Seq<(MetricKeyView, GaugeReading)>,
    name: Seq<char>,
    labels: Seq<(Seq<char>, Seq<char>)>,
    reading: GaugeReading,
) -> bool {
    &&& exists|i: int| 0 <= i < updates.len() && #[trigger] updates[i] == ((name, labels), reading)
    &&& forall|i: int|
        0 <= i < updates.len() && (#[trigger] updates[i]).0.0 == name ==> updates[i].1 == reading
}

/// The labels that every gauge of a repository carries: its name under
/// `repository_name`.
pub open spec fn repository_labels(repository: Seq<char>) -> Seq<(Seq<char>, Seq<char>)> {
    seq![("repository_name"@, repository)]
}

/// The gauges of a repository's last snapshot.
pub struct SnapshotMetricStore {
    pub started: MetricKey,
    pub finished: MetricKey,
    pub duration: MetricKey,
    pub size_total_bytes: MetricKey,
    pub size_added_bytes: MetricKey,
    pub files_new: MetricKey,
    pub files_changed: MetricKey,
    pub files_unmodified: MetricKey,
    pub files_total: MetricKey,
    pub dirs_new: MetricKey,
    pub dirs_changed: MetricKey,
    pub dirs_unmodified: MetricKey,
    pub dirs_total: MetricKey,
}

/// `store` holds the snapshot gauges, each named as exported and carrying
/// `labels`.
pub open spec fn is_snapshot_store(
    store: SnapshotMetricStore,
    labels: Seq<(Seq<char>, Seq<char>)>,
) -> bool {
    &&& store.started@ == ("restic.snapshot.started"@, labels)
    &&& store.finished@ == ("restic.snapshot.finished"@, labels)
    &&& store.duration@ == ("restic.snapshot.duration"@, labels)
    &&& store.size_added_bytes@ == ("restic.snapshot.size_added_bytes"@, labels)
    &&& store.size_total_bytes@ == ("restic.snapshot.size_total_bytes"@, labels)
    &&& store.files_new@ == ("restic.snapshot.files_new"@, labels)
    &&& store.files_changed@ == ("restic.snapshot.files_changed"@, labels)
    &&& store.files_unmodified@ == ("restic.snapshot.files_unmodified"@, labels)
    &&& store.files_total@ == ("restic.snapshot.files_total"@, labels)
    &&& store.dirs_new@ == ("restic.snapshot.dirs_new"@, labels)
    &&& store.dirs_changed@ == ("restic.snapshot.dirs_changed"@, labels)
    &&& store.dirs_unmodified@ == ("restic.snapshot.dirs_unmodified"@, labels)
    &&& store.dirs_total@ == ("restic.snapshot.dirs_total"@, labels)
}

impl SnapshotMetricStore {
    /// The snapshot gauges with `common_labels`.
    pub fn new(common_labels: &Vec<(String, String)>) -> (store: SnapshotMetricStore)
        ensures
            is_snapshot_store(store, pairs_view(common_labels@)),
    {
        SnapshotMetricStore {
            started: MetricKey::new("restic.snapshot.started", common_labels),
            finished: MetricKey::new("restic.snapshot.finished", common_labels),
            duration: MetricKey::new("restic.snapshot.duration", common_labels),
            size_added_bytes: MetricKey::new("restic.snapshot.size_added_bytes", common_labels),
            size_total_bytes: MetricKey::new("restic.snapshot.size_total_bytes", common_labels),
            files_new: MetricKey::new("restic.snapshot.files_new", common_labels),
            files_changed: MetricKey::new("restic.snapshot.files_changed", common_labels),
            files_unmodified: MetricKey::new("restic.snapshot.files_unmodified", common_labels),
            files_total: MetricKey::new("restic.snapshot.files_total", common_labels),
            dirs_new: MetricKey::new("restic.snapshot.dirs_new", common_labels),
            dirs_changed: MetricKey::new("restic.snapshot.dirs_changed", common_labels),
            dirs_unmodified: MetricKey::new("restic.snapshot.dirs_unmodified", common_labels),
            dirs_total: MetricKey::new("restic.snapshot.dirs_total", common_labels),
        }
    }
}

/// Two snapshot stores hold gauges with the same keys.
pub open spec fn same_snapshot_gauges(a: SnapshotMetricStore, b: SnapshotMetricStore) -> bool {
    &&& a.started@ == b.started@
    &&& a.finished@ == b.finished@
    &&& a.duration@ == b.duration@
    &&& a.size_total_bytes@ == b.size_total_bytes@
    &&& a.size_added_bytes@ == b.size_added_bytes@
    &&& a.files_new@ == b.files_new@
    &&& a.files_changed@ == b.files_changed@
    &&& a.files_unmodified@ == b.files_unmodified@
    &&& a.files_total@ == b.files_total@
    &&& a.dirs_new@ == b.dirs_new@
    &&& a.dirs_changed@ == b.dirs_changed@
    &&& a.dirs_unmodified@ == b.dirs_unmodified@
    &&& a.dirs_total@ == b.dirs_total@
}

impl SnapshotMetricStore {
    /// A copy of the store.
    pub fn copy(&self) -> (store: SnapshotMetricStore)
        ensures
            same_snapshot_gauges(store, *self),
    {
        SnapshotMetricStore {
            started: self.started.copy(),
            finished: self.finished.copy(),
            duration: self.duration.copy(),
            size_total_bytes: self.size_total_bytes.copy(),
            size_added_bytes: self.size_added_bytes.copy(),
            files_new: self.files_new.copy(),
            files_changed: self.files_changed.copy(),
            files_unmodified: self.files_unmodified.copy(),
            files_total: self.files_total.copy(),
            dirs_new: self.dirs_new.copy(),
            dirs_changed: self.dirs_changed.copy(),
            dirs_unmodified: self.dirs_unmodified.copy(),
            dirs_total: self.dirs_total.copy(),
        }
    }
}

/// The gauges of one repository.
pub struct RepositoryMetricStore {
    /// The labels that all of the repository's gauges carry.
    pub common_labels: Vec<(String, String)>,
    pub total_snapshots: MetricKey,
    pub check_success: MetricKey,
    pub scrape_duration_seconds: MetricKey,
    pub size_total: MetricKey,
    pub uncompressed_size_total: MetricKey,
    pub compression_ratio: MetricKey,
    pub blob_count_total: MetricKey,
    /// The gauges of the last snapshot, once a snapshot has been reported.
    pub last_snapshot_store: Option<SnapshotMetricStore>,
}

/// `store` holds the repository gauges, each named as exported and carrying
/// `labels`, which are also its common labels.
pub open spec fn is_repository_store(
    store: RepositoryMetricStore,
    labels: Seq<(Seq<char>, Seq<char>)>,
) -> bool {
    &&& pairs_view(store.common_labels@) == labels
    &&& store.total_snapshots@ == ("restic.snapshots_total"@, labels)
    &&& store.check_success@ == ("restic.check_success"@, labels)
    &&& store.scrape_duration_seconds@ == ("restic.scrape_duration_seconds"@, labels)
    &&& store.size_total@ == ("restic.size_total"@, labels)
    &&& store.uncompressed_size_total@ == ("restic.uncompressed_size_total"@, labels)
    &&& store.compression_ratio@ == ("restic.compression_ratio"@, labels)
    &&& store.blob_count_total@ == ("restic.blob_count_total"@, labels)
}

/// Two stores hold the same repository gauges and labels.
pub open spec fn same_repository_gauges(a: RepositoryMetricStore, b: RepositoryMetricStore) -> bool {
    &&& a.common_labels == b.common_labels
    &&& a.total_snapshots == b.total_snapshots
    &&& a.check_success == b.check_success
    &&& a.scrape_duration_seconds == b.scrape_duration_seconds
    &&& a.size_total == b.size_total
    &&& a.uncompressed_size_total == b.uncompressed_size_total
    &&& a.compression_ratio == b.compression_ratio
    &&& a.blob_count_total == b.blob_count_total
}

impl RepositoryMetricStore {
    /// The repository gauges with `common_labels`, without snapshot gauges.
    pub fn new(common_labels: &Vec<(String, String)>) -> (store: RepositoryMetricStore)
        ensures
            is_repository_store(store, pairs_view(common_labels@)),
            store.last_snapshot_store is None,
    {
        RepositoryMetricStore {
            total_snapshots: MetricKey::new("restic.snapshots_total", common_labels),
            check_success: MetricKey::new("restic.check_success", common_labels),
            scrape_duration_seconds: MetricKey::new(
                "restic.scrape_duration_seconds",
                common_labels,
            ),
            size_total: MetricKey::new("restic.size_total", common_labels),
            uncompressed_size_total: MetricKey::new(
                "restic.uncompressed_size_total",
                common_labels,
            ),
            compression_ratio: MetricKey::new("restic.compression_ratio", common_labels),
            blob_count_total: MetricKey::new("restic.blob_count_total", common_labels),
            last_snapshot_store: None,
            common_labels: copy_labels(common_labels),
        }
    }

    /// The snapshot gauges, made with the common labels the first time.
    pub fn get_or_init_snapshot_store(&mut self) -> (store: &SnapshotMetricStore)
        ensures
            same_repository_gauges(*final(self), *old(self)),
            final(self).last_snapshot_store == Some(*store),
            old(self).last_snapshot_store is Some ==> *final(self) == *old(self),
            old(self).last_snapshot_store is None ==> is_snapshot_store(
                *store,
                pairs_view(old(self).common_labels@),
            ),
    {
        if self.last_snapshot_store.is_none() {
            self.last_snapshot_store = Some(SnapshotMetricStore::new(&self.common_labels));
        }
        self.last_snapshot_store.as_ref().unwrap()
    }
}

/// The integer figures of a repository's last snapshot: its start and end in
/// milliseconds, its sizes, and its counts of new, changed, unmodified and all
/// files and directories. Its duration, a float, is not among them.
#[derive(Clone, Copy, Debug, PartialEq, Eq, Structural)]
pub struct SnapshotCounts {
    pub started_ms: i64,
    pub finished_ms: i64,
    pub size_total_bytes: u64,
    pub size_added_bytes: u64,
    pub files_new: u64,
    pub files_changed: u64,
    pub files_unmodified: u64,
    pub files_total: u64,
    pub dirs_new: u64,
    pub dirs_changed: u64,
    pub dirs_unmodified: u64,
    pub dirs_total: u64,
}

/// A report of one collection run of a repository.
pub struct PostRepositoryMetricsMessage {
    /// The repository the run collected.
    pub repository_ref: RepositoryRef,
    /// What the run found.
    pub repository_metrics: RepositoryMetricsSnapshot,
    /// The figures of the repository's last snapshot, where the run has them.
    pub last_snapshot_metrics: Option<SnapshotCounts>,
    /// How long the run took.
    pub scrape_metrics: ScrapeMetricsSnapshot,
}

/// The gauge values that a report sets, in order, given the repository's
/// gauges: the snapshot count cut to a `u32`, the check as 1 or 0, the run's
/// duration, the blob count, the stored and raw sizes, and raw size over stored
/// size as the compression ratio.
pub open spec fn repository_gauge_updates(
    store: RepositoryMetricStore,
    metrics: RepositoryMetricsSnapshot,
    scrape: ScrapeMetricsSnapshot,
) -> Seq<(MetricKeyView, GaugeReading)> {
    seq![
        (store.total_snapshots@, GaugeReading::Unsigned((metrics.total_snapshots as u32) as u64)),
        (store.check_success@, GaugeReading::Signed(if metrics.check_result { 1 } else { 0 })),
        (store.scrape_duration_seconds@, GaugeReading::Seconds(scrape.scrape_duration)),
        (store.blob_count_total@, GaugeReading::Unsigned(metrics.blob_count_total)),
        (store.size_total@, GaugeReading::Unsigned(metrics.blob_size_total)),
        (store.uncompressed_size_total@, GaugeReading::Unsigned(metrics.blob_size_uncompressed_total)),
        (store.compression_ratio@, GaugeReading::Ratio(
            metrics.blob_size_uncompressed_total,
            metrics.blob_size_total,
        )),
    ]
}

/// Every gauge value a report sets goes to a gauge that carries the
/// repository's name as its `repository_name` label.
pub proof fn law_report_gauges_carry_repository_label(
    store: RepositoryMetricStore,
    repository: Seq<char>,
    metrics: RepositoryMetricsSnapshot,
    scrape: ScrapeMetricsSnapshot,
)
    requires
        is_repository_store(store, repository_labels(repository)),
    ensures
        forall|i: int|
            0 <= i < repository_gauge_updates(store, metrics, scrape).len() ==> (#[trigger] repository_gauge_updates(
                store,
                metrics,
                scrape,
            )[i]).0.1 == repository_labels(repository),
{
}

/// The gauge values that a last snapshot's figures set, in order, given the
/// snapshot gauges: each figure on the gauge of the same name.
pub open spec fn snapshot_gauge_readings(store: SnapshotMetricStore, counts: SnapshotCounts) -> Seq<
    (MetricKeyView, GaugeReading),
> {
    seq![
        (store.started@, GaugeReading::Signed(counts.started_ms)),
        (store.finished@, GaugeReading::Signed(counts.finished_ms)),
        (store.size_total_bytes@, GaugeReading::Unsigned(counts.size_total_bytes)),
        (store.size_added_bytes@, GaugeReading::Unsigned(counts.size_added_bytes)),
        (store.files_new@, GaugeReading::Unsigned(counts.files_new)),
        (store.files_changed@, GaugeReading::Unsigned(counts.files_changed)),
        (store.files_unmodified@, GaugeReading::Unsigned(counts.files_unmodified)),
        (store.files_total@, GaugeReading::Unsigned(counts.files_total)),
        (store.dirs_new@, GaugeReading::Unsigned(counts.dirs_new)),
        (store.dirs_changed@, GaugeReading::Unsigned(counts.dirs_changed)),
        (store.dirs_unmodified@, GaugeReading::Unsigned(counts.dirs_unmodified)),
        (store.dirs_total@, GaugeReading::Unsigned(counts.dirs_total)),
    ]
}

/// The gauge values that a last snapshot's figures set on the snapshot gauges.
pub fn snapshot_gauge_updates(store: &SnapshotMetricStore, counts: &SnapshotCounts) -> (updates: Vec<
    GaugeUpdate,
>)
    ensures
        update_views(updates@) == snapshot_gauge_readings(*store, *counts),
{
    let mut updates: Vec<GaugeUpdate> = Vec::new();
    updates.push(GaugeUpdate { gauge: store.started.copy(), reading: GaugeReading::Signed(counts.started_ms) });
    updates.push(GaugeUpdate { gauge: store.finished.copy(), reading: GaugeReading::Signed(counts.finished_ms) });
    updates.push(GaugeUpdate { gauge: store.size_total_bytes.copy(), reading: GaugeReading::Unsigned(counts.size_total_bytes) });
    updates.push(GaugeUpdate { gauge: store.size_added_bytes.copy(), reading: GaugeReading::Unsigned(counts.size_added_bytes) });
    updates.push(GaugeUpdate { gauge: store.files_new.copy(), reading: GaugeReading::Unsigned(counts.files_new) });
    updates.push(GaugeUpdate { gauge: store.files_changed.copy(), reading: GaugeReading::Unsigned(counts.files_changed) });
    updates.push(GaugeUpdate { gauge: store.files_unmodified.copy(), reading: GaugeReading::Unsigned(counts.files_unmodified) });
    updates.push(GaugeUpdate { gauge: store.files_total.copy(), reading: GaugeReading::Unsigned(counts.files_total) });
    updates.push(GaugeUpdate { gauge: store.dirs_new.copy(), reading: GaugeReading::Unsigned(counts.dirs_new) });
    updates.push(GaugeUpdate { gauge: store.dirs_changed.copy(), reading: GaugeReading::Unsigned(counts.dirs_changed) });
    updates.push(GaugeUpdate { gauge: store.dirs_unmodified.copy(), reading: GaugeReading::Unsigned(counts.dirs_unmodified) });
    updates.push(GaugeUpdate { gauge: store.dirs_total.copy(), reading: GaugeReading::Unsigned(counts.dirs_total) });
    assert(update_views(updates@) =~= snapshot_gauge_readings(*store, *counts));
    updates
}

/// The exported gauge names, told apart by their lengths and a few of their
/// letters.
proof fn lemma_gauge_names_told_apart()
    ensures
        "restic.snapshots_total"@.len() == 22 && "restic.snapshots_total"@[7] == 's' && "restic.snapshots_total"@[21] == 'l',
        "restic.check_success"@.len() == 20 && "restic.check_success"@[7] == 'c',
        "restic.scrape_duration_seconds"@.len() == 30 && "restic.scrape_duration_seconds"@[7] == 's' && "restic.scrape_duration_seconds"@[21] == 'n',
        "restic.blob_count_total"@.len() == 23 && "restic.blob_count_total"@[7] == 'b' && "restic.blob_count_total"@[21] == 'a',
        "restic.size_total"@.len() == 17 && "restic.size_total"@[7] == 's',
        "restic.uncompressed_size_total"@.len() == 30 && "restic.uncompressed_size_total"@[7] == 'u' && "restic.uncompressed_size_total"@[21] == 'i',
        "restic.compression_ratio"@.len() == 24 && "restic.compression_ratio"@[7] == 'c' && "restic.compression_ratio"@[21] == 't',
        "restic.snapshot.started"@.len() == 23 && "restic.snapshot.started"@[7] == 's' && "restic.snapshot.started"@[21] == 'e',
        "restic.snapshot.finished"@.len() == 24 && "restic.snapshot.finished"@[7] == 's' && "restic.snapshot.finished"@[21] == 'h',
        "restic.snapshot.size_total_bytes"@.len() == 32 && "restic.snapshot.size_total_bytes"@[7] == 's' && "restic.snapshot.size_total_bytes"@[21] == 't',
        "restic.snapshot.size_added_bytes"@.len() == 32 && "restic.snapshot.size_added_bytes"@[7] == 's' && "restic.snapshot.size_added_bytes"@[21] == 'a',
        "restic.snapshot.files_new"@.len() == 25 && "restic.snapshot.files_new"@[7] == 's' && "restic.snapshot.files_new"@[21] == '_',
        "restic.snapshot.files_changed"@.len() == 29 && "restic.snapshot.files_changed"@[7] == 's' && "restic.snapshot.files_changed"@[21] == '_',
        "restic.snapshot.files_unmodified"@.len() == 32 && "restic.snapshot.files_unmodified"@[7] == 's' && "restic.snapshot.files_unmodified"@[21] == '_',
        "restic.snapshot.files_total"@.len() == 27 && "restic.snapshot.files_total"@[7] == 's' && "restic.snapshot.files_total"@[21] == '_',
        "restic.snapshot.dirs_new"@.len() == 24 && "restic.snapshot.dirs_new"@[7] == 's' && "restic.snapshot.dirs_new"@[21] == 'n',
        "restic.snapshot.dirs_changed"@.len() == 28 && "restic.snapshot.dirs_changed"@[7] == 's' && "restic.snapshot.dirs_changed"@[21] == 'c',
        "restic.snapshot.dirs_unmodified"@.len() == 31 && "restic.snapshot.dirs_unmodified"@[7] == 's' && "restic.snapshot.dirs_unmodified"@[21] == 'u',
        "restic.snapshot.dirs_total"@.len() == 26 && "restic.snapshot.dirs_total"@[7] == 's' && "restic.snapshot.dirs_total"@[21] == 't',
{
    reveal_strlit("restic.snapshots_total");
    reveal_strlit("restic.check_success");
    reveal_strlit("restic.scrape_duration_seconds");
    reveal_strlit("restic.blob_count_total");
    reveal_strlit("restic.size_total");
    reveal_strlit("restic.uncompressed_size_total");
    reveal_strlit("restic.compression_ratio");
    reveal_strlit("restic.snapshot.started");
    reveal_strlit("restic.snapshot.finished");
    reveal_strlit("restic.snapshot.size_total_bytes");
    reveal_strlit("restic.snapshot.size_added_bytes");
    reveal_strlit("restic.snapshot.files_new");
    reveal_strlit("restic.snapshot.files_changed");
    reveal_strlit("restic.snapshot.files_unmodified");
    reveal_strlit("restic.snapshot.files_total");
    reveal_strlit("restic.snapshot.dirs_new");
    reveal_strlit("restic.snapshot.dirs_changed");
    reveal_strlit("restic.snapshot.dirs_unmodified");
    reveal_strlit("restic.snapshot.dirs_total");
}

/// Each snapshot gauge is set to the figure of the same name: the start and
/// end times to the snapshot's start and end, each size and each count of
/// files and directories to that size or count, all with the store's labels.
pub proof fn law_snapshot_gauges_take_figures_of_same_name(
    store: SnapshotMetricStore,
    labels: Seq<(Seq<char>, Seq<char>)>,
    counts: SnapshotCounts,
)
    requires
        is_snapshot_store(store, labels),
    ensures
        sets_gauge(snapshot_gauge_readings(store, counts), "restic.snapshot.started"@, labels, GaugeReading::Signed(counts.started_ms)),
        sets_gauge(snapshot_gauge_readings(store, counts), "restic.snapshot.finished"@, labels, GaugeReading::Signed(counts.finished_ms)),
        sets_gauge(snapshot_gauge_readings(store, counts), "restic.snapshot.size_total_bytes"@, labels, GaugeReading::Unsigned(counts.size_total_bytes)),
        sets_gauge(snapshot_gauge_readings(store, counts), "restic.snapshot.size_added_bytes"@, labels, GaugeReading::Unsigned(counts.size_added_bytes)),
        sets_gauge(snapshot_gauge_readings(store, counts), "restic.snapshot.files_new"@, labels, GaugeReading::Unsigned(counts.files_new)),
        sets_gauge(snapshot_gauge_readings(store, counts), "restic.snapshot.files_changed"@, labels, GaugeReading::Unsigned(counts.files_changed)),
        sets_gauge(snapshot_gauge_readings(store, counts), "restic.snapshot.files_unmodified"@, labels, GaugeReading::Unsigned(counts.files_unmodified)),
        sets_gauge(snapshot_gauge_readings(store, counts), "restic.snapshot.files_total"@, labels, GaugeReading::Unsigned(counts.files_total)),
        sets_gauge(snapshot_gauge_readings(store, counts), "restic.snapshot.dirs_new"@, labels, GaugeReading::Unsigned(counts.dirs_new)),
        sets_gauge(snapshot_gauge_readings(store, counts), "restic.snapshot.dirs_changed"@, labels, GaugeReading::Unsigned(counts.dirs_changed)),
        sets_gauge(snapshot_gauge_readings(store, counts), "restic.snapshot.dirs_unmodified"@, labels, GaugeReading::Unsigned(counts.dirs_unmodified)),
        sets_gauge(snapshot_gauge_readings(store, counts), "restic.snapshot.dirs_total"@, labels, GaugeReading::Unsigned(counts.dirs_total)),
{
    lemma_gauge_names_told_apart();
    let readings = snapshot_gauge_readings(store, counts);
    assert(readings[0] == (("restic.snapshot.started"@, labels), GaugeReading::Signed(counts.started_ms)));
    assert(readings[1] == (("restic.snapshot.finished"@, labels), GaugeReading::Signed(counts.finished_ms)));
    assert(readings[2] == (("restic.snapshot.size_total_bytes"@, labels), GaugeReading::Unsigned(counts.size_total_bytes)));
    assert(readings[3] == (("restic.snapshot.size_added_bytes"@, labels), GaugeReading::Unsigned(counts.size_added_bytes)));
    assert(readings[4] == (("restic.snapshot.files_new"@, labels), GaugeReading::Unsigned(counts.files_new)));
    assert(readings[5] == (("restic.snapshot.files_changed"@, labels), GaugeReading::Unsigned(counts.files_changed)));
    assert(readings[6] == (("restic.snapshot.files_unmodified"@, labels), GaugeReading::Unsigned(counts.files_unmodified)));
    assert(readings[7] == (("restic.snapshot.files_total"@, labels), GaugeReading::Unsigned(counts.files_total)));
    assert(readings[8] == (("restic.snapshot.dirs_new"@, labels), GaugeReading::Unsigned(counts.dirs_new)));
    assert(readings[9] == (("restic.snapshot.dirs_changed"@, labels), GaugeReading::Unsigned(counts.dirs_changed)));
    assert(readings[10] == (("restic.snapshot.dirs_unmodified"@, labels), GaugeReading::Unsigned(counts.dirs_unmodified)));
    assert(readings[11] == (("restic.snapshot.dirs_total"@, labels), GaugeReading::Unsigned(counts.dirs_total)));
}

/// The gauge values that a report sets on the repository gauges.
fn repository_gauge_update_list(
    store: &RepositoryMetricStore,
    metrics: &RepositoryMetricsSnapshot,
    scrape: &ScrapeMetricsSnapshot,
) -> (updates: Vec<GaugeUpdate>)
    ensures
        update_views(updates@) == repository_gauge_updates(*store, *metrics, *scrape),
{
    let check: i64 = if metrics.check_result {
        1
    } else {
        0
    };
    let mut updates: Vec<GaugeUpdate> = Vec::new();
    updates.push(GaugeUpdate { gauge: store.total_snapshots.copy(), reading: GaugeReading::Unsigned((metrics.total_snapshots as u32) as u64) });
    updates.push(GaugeUpdate { gauge: store.check_success.copy(), reading: GaugeReading::Signed(check) });
    updates.push(GaugeUpdate { gauge: store.scrape_duration_seconds.copy(), reading: GaugeReading::Seconds(scrape.scrape_duration) });
    updates.push(GaugeUpdate { gauge: store.blob_count_total.copy(), reading: GaugeReading::Unsigned(metrics.blob_count_total) });
    updates.push(GaugeUpdate { gauge: store.size_total.copy(), reading: GaugeReading::Unsigned(metrics.blob_size_total) });
    updates.push(GaugeUpdate { gauge: store.uncompressed_size_total.copy(), reading: GaugeReading::Unsigned(metrics.blob_size_uncompressed_total) });
    updates.push(GaugeUpdate { gauge: store.compression_ratio.copy(), reading: GaugeReading::Ratio(metrics.blob_size_uncompressed_total, metrics.blob_size_total) });
    assert(update_views(updates@) =~= repository_gauge_updates(*store, *metrics, *scrape));
    updates
}

/// The store holds the gauges of repository `repository`: each repository
/// gauge, and each snapshot gauge once there are any, named as exported and
/// labelled with the repository's name.
pub open spec fn store_of_repository(store: RepositoryMetricStore, repository: Seq<char>) -> bool {
    &&& is_repository_store(store, repository_labels(repository))
    &&& store.last_snapshot_store matches Some(snapshot) ==> is_snapshot_store(
        snapshot,
        repository_labels(repository),
    )
}

/// The views of the repository names and stores of a list of entries.
pub open spec fn stores_view(entries: Seq<(RepositoryRef, RepositoryMetricStore)>) -> Seq<
    (Seq<char>, RepositoryMetricStore),
> {
    entries.map_values(|e: (RepositoryRef, RepositoryMetricStore)| (e.0.0@, e.1))
}

/// No repository has two entries, and each entry holds its repository's gauges.
pub open spec fn entries_well_formed(entries: Seq<(RepositoryRef, RepositoryMetricStore)>) -> bool {
    &&& keys_unique(stores_view(entries))
    &&& forall|i: int|
        0 <= i < entries.len() ==> store_of_repository(#[trigger] entries[i].1, entries[i].0.0@)
}

/// Keeps the gauges of every repository that has reported, one store per
/// repository. Its view maps each repository name to that store.
pub struct MetricsExporter {
    repository_metrics: Vec<(RepositoryRef, RepositoryMetricStore)>,
}

impl View for MetricsExporter {
    type V = Map<Seq<char>, RepositoryMetricStore>;

    closed spec fn view(&self) -> Map<Seq<char>, RepositoryMetricStore> {
        pairs_map(stores_view(self.repository_metrics@))
    }
}

/// The store that an exporter's entries give for a repository holds that
/// repository's gauges.
proof fn lemma_stores_of_repositories(entries: Seq<(RepositoryRef, RepositoryMetricStore)>)
    requires
        entries_well_formed(entries),
    ensures
        forall|k: Seq<char>|
            #[trigger] pairs_map(stores_view(entries)).contains_key(k) ==> store_of_repository(
                pairs_map(stores_view(entries))[k],
                k,
            ),
{
    assert forall|k: Seq<char>| #[trigger] pairs_map(stores_view(entries)).contains_key(k) implies store_of_repository(
        pairs_map(stores_view(entries))[k],
        k,
    ) by {
        lemma_pairs_map_lookup(stores_view(entries), k);
        let i = choose|i: int| 0 <= i < stores_view(entries).len() && #[trigger] stores_view(entries)[i].0 == k;
        assert(stores_view(entries)[i] == (entries[i].0.0@, entries[i].1));
    }
}

/// What taking report `msg` does: the exporter `after` is `before` with the
/// store of the reporting repository `r` made or kept; that store holds `r`'s
/// gauges; a kept store keeps its repository gauges and, once made, its snapshot
/// gauges; snapshot gauges are made only by a report with snapshot figures; and
/// the gauge values set are the repository gauges' values followed by the
/// snapshot gauges' values.
pub open spec fn report_handled(
    before: Map<Seq<char>, RepositoryMetricStore>,
    after: Map<Seq<char>, RepositoryMetricStore>,
    msg: PostRepositoryMetricsMessage,
    updates: Seq<(MetricKeyView, GaugeReading)>,
) -> bool {
    let r = msg.repository_ref.0@;
    let store = after[r];
    &&& after == before.insert(r, store)
    &&& store_of_repository(store, r)
    &&& before.contains_key(r) ==> same_repository_gauges(store, before[r])
    &&& before.contains_key(r) && before[r].last_snapshot_store is Some
        ==> store.last_snapshot_store == before[r].last_snapshot_store
    &&& msg.last_snapshot_metrics is None ==> store.last_snapshot_store == (if before.contains_key(r) {
        before[r].last_snapshot_store
    } else {
        None
    })
    &&& msg.last_snapshot_metrics is Some ==> store.last_snapshot_store is Some
    &&& updates == repository_gauge_updates(store, msg.repository_metrics, msg.scrape_metrics) + (
    match msg.last_snapshot_metrics {
        Some(counts) => snapshot_gauge_readings(store.last_snapshot_store->0, counts),
        None => Seq::empty(),
    })
}

/// A report sets each repository gauge from its own figure: the snapshot
/// count (kept to a `u32`, so exact up to `u32::MAX`), the check as 1 or 0, the
/// run's duration, the blob count, the stored and raw sizes, and raw over
/// stored size as the compression ratio; where it has snapshot figures, each
/// snapshot gauge from the figure of the same name. Every gauge carries the
/// reporting repository's name as its label.
pub proof fn law_report_sets_gauges_from_its_figures(
    before: Map<Seq<char>, RepositoryMetricStore>,
    after: Map<Seq<char>, RepositoryMetricStore>,
    msg: PostRepositoryMetricsMessage,
    updates: Seq<(MetricKeyView, GaugeReading)>,
)
    requires
        report_handled(before, after, msg, updates),
    ensures
        msg.repository_metrics.total_snapshots <= u32::MAX ==> sets_gauge(
            updates,
            "restic.snapshots_total"@,
            repository_labels(msg.repository_ref.0@),
            GaugeReading::Unsigned(msg.repository_metrics.total_snapshots as u64),
        ),
        sets_gauge(
            updates,
            "restic.snapshots_total"@,
            repository_labels(msg.repository_ref.0@),
            GaugeReading::Unsigned(((msg.repository_metrics.total_snapshots as int) % 0x1_0000_0000) as u64),
        ),
        sets_gauge(updates, "restic.check_success"@, repository_labels(msg.repository_ref.0@), GaugeReading::Signed(if msg.repository_metrics.check_result { 1 } else { 0 })),
        sets_gauge(updates, "restic.scrape_duration_seconds"@, repository_labels(msg.repository_ref.0@), GaugeReading::Seconds(msg.scrape_metrics.scrape_duration)),
        sets_gauge(updates, "restic.blob_count_total"@, repository_labels(msg.repository_ref.0@), GaugeReading::Unsigned(msg.repository_metrics.blob_count_total)),
        sets_gauge(updates, "restic.size_total"@, repository_labels(msg.repository_ref.0@), GaugeReading::Unsigned(msg.repository_metrics.blob_size_total)),
        sets_gauge(updates, "restic.uncompressed_size_total"@, repository_labels(msg.repository_ref.0@), GaugeReading::Unsigned(msg.repository_metrics.blob_size_uncompressed_total)),
        sets_gauge(updates, "restic.compression_ratio"@, repository_labels(msg.repository_ref.0@), GaugeReading::Ratio(msg.repository_metrics.blob_size_uncompressed_total, msg.repository_metrics.blob_size_total)),
        msg.last_snapshot_metrics matches Some(counts) ==> sets_gauge(
            updates,
            "restic.snapshot.started"@,
            repository_labels(msg.repository_ref.0@),
            GaugeReading::Signed(counts.started_ms),
        ),
        msg.last_snapshot_metrics matches Some(counts) ==> sets_gauge(
            updates,
            "restic.snapshot.finished"@,
            repository_labels(msg.repository_ref.0@),
            GaugeReading::Signed(counts.finished_ms),
        ),
        msg.last_snapshot_metrics matches Some(counts) ==> sets_gauge(
            updates,
            "restic.snapshot.size_total_bytes"@,
            repository_labels(msg.repository_ref.0@),
            GaugeReading::Unsigned(counts.size_total_bytes),
        ),
        msg.last_snapshot_metrics matches Some(counts) ==> sets_gauge(
            updates,
            "restic.snapshot.size_added_bytes"@,
            repository_labels(msg.repository_ref.0@),
            GaugeReading::Unsigned(counts.size_added_bytes),
        ),
        msg.last_snapshot_metrics matches Some(counts) ==> sets_gauge(
            updates,
            "restic.snapshot.files_new"@,
            repository_labels(msg.repository_ref.0@),
            GaugeReading::Unsigned(counts.files_new),
        ),
        msg.last_snapshot_metrics matches Some(counts) ==> sets_gauge(
            updates,
            "restic.snapshot.files_changed"@,
            repository_labels(msg.repository_ref.0@),
            GaugeReading::Unsigned(counts.files_changed),
        ),
        msg.last_snapshot_metrics matches Some(counts) ==> sets_gauge(
            updates,
            "restic.snapshot.files_unmodified"@,
            repository_labels(msg.repository_ref.0@),
            GaugeReading::Unsigned(counts.files_unmodified),
        ),
        msg.last_snapshot_metrics matches Some(counts) ==> sets_gauge(
            updates,
            "restic.snapshot.files_total"@,
            repository_labels(msg.repository_ref.0@),
            GaugeReading::Unsigned(counts.files_total),
        ),
        msg.last_snapshot_metrics matches Some(counts) ==> sets_gauge(
            updates,
            "restic.snapshot.dirs_new"@,
            repository_labels(msg.repository_ref.0@),
            GaugeReading::Unsigned(counts.dirs_new),
        ),
        msg.last_snapshot_metrics matches Some(counts) ==> sets_gauge(
            updates,
            "restic.snapshot.dirs_changed"@,
            repository_labels(msg.repository_ref.0@),
            GaugeReading::Unsigned(counts.dirs_changed),
        ),
        msg.last_snapshot_metrics matches Some(counts) ==> sets_gauge(
            updates,
            "restic.snapshot.dirs_unmodified"@,
            repository_labels(msg.repository_ref.0@),
            GaugeReading::Unsigned(counts.dirs_unmodified),
        ),
        msg.last_snapshot_metrics matches Some(counts) ==> sets_gauge(
            updates,
            "restic.snapshot.dirs_total"@,
            repository_labels(msg.repository_ref.0@),
            GaugeReading::Unsigned(counts.dirs_total),
        ),
{
    lemma_gauge_names_told_apart();
    let labels = repository_labels(msg.repository_ref.0@);
    let store = after[msg.repository_ref.0@];
    let first = repository_gauge_updates(store, msg.repository_metrics, msg.scrape_metrics);
    let total: u64 = msg.repository_metrics.total_snapshots as u64;
    assert((total as u32) as u64 == total % 0x1_0000_0000u64) by (bit_vector);
    assert(((msg.repository_metrics.total_snapshots as u32) as u64) == ((msg.repository_metrics.total_snapshots as int) % 0x1_0000_0000) as u64);
    assert(updates[0] == (("restic.snapshots_total"@, labels), GaugeReading::Unsigned((msg.repository_metrics.total_snapshots as u32) as u64)));
    assert(updates[1] == (("restic.check_success"@, labels), GaugeReading::Signed(if msg.repository_metrics.check_result { 1 } else { 0 })));
    assert(updates[2] == (("restic.scrape_duration_seconds"@, labels), GaugeReading::Seconds(msg.scrape_metrics.scrape_duration)));
    assert(updates[3] == (("restic.blob_count_total"@, labels), GaugeReading::Unsigned(msg.repository_metrics.blob_count_total)));
    assert(updates[4] == (("restic.size_total"@, labels), GaugeReading::Unsigned(msg.repository_metrics.blob_size_total)));
    assert(updates[5] == (("restic.uncompressed_size_total"@, labels), GaugeReading::Unsigned(msg.repository_metrics.blob_size_uncompressed_total)));
    assert(updates[6] == (("restic.compression_ratio"@, labels), GaugeReading::Ratio(msg.repository_metrics.blob_size_uncompressed_total, msg.repository_metrics.blob_size_total)));
    if let Some(counts) = msg.last_snapshot_metrics {
        let second = snapshot_gauge_readings(store.last_snapshot_store->0, counts);
        assert(updates == first + second);
        assert(updates[7] == (("restic.snapshot.started"@, labels), GaugeReading::Signed(counts.started_ms)));
        assert(updates[8] == (("restic.snapshot.finished"@, labels), GaugeReading::Signed(counts.finished_ms)));
        assert(updates[9] == (("restic.snapshot.size_total_bytes"@, labels), GaugeReading::Unsigned(counts.size_total_bytes)));
        assert(updates[10] == (("restic.snapshot.size_added_bytes"@, labels), GaugeReading::Unsigned(counts.size_added_bytes)));
        assert(updates[11] == (("restic.snapshot.files_new"@, labels), GaugeReading::Unsigned(counts.files_new)));
        assert(updates[12] == (("restic.snapshot.files_changed"@, labels), GaugeReading::Unsigned(counts.files_changed)));
        assert(updates[13] == (("restic.snapshot.files_unmodified"@, labels), GaugeReading::Unsigned(counts.files_unmodified)));
        assert(updates[14] == (("restic.snapshot.files_total"@, labels), GaugeReading::Unsigned(counts.files_total)));
        assert(updates[15] == (("restic.snapshot.dirs_new"@, labels), GaugeReading::Unsigned(counts.dirs_new)));
        assert(updates[16] == (("restic.snapshot.dirs_changed"@, labels), GaugeReading::Unsigned(counts.dirs_changed)));
        assert(updates[17] == (("restic.snapshot.dirs_unmodified"@, labels), GaugeReading::Unsigned(counts.dirs_unmodified)));
        assert(updates[18] == (("restic.snapshot.dirs_total"@, labels), GaugeReading::Unsigned(counts.dirs_total)));
    } else {
        assert(updates =~= first);
    }
}

impl MetricsExporter {
    #[verifier::type_invariant]
    closed spec fn one_labelled_store_per_repository(&self) -> bool {
        entries_well_formed(self.repository_metrics@)
    }

    /// An exporter that knows no repository yet.
    pub fn new() -> (exporter: MetricsExporter)
        ensures
            exporter@ == Map::<Seq<char>, RepositoryMetricStore>::empty(),
    {
        let exporter = MetricsExporter { repository_metrics: Vec::new() };
        assert(stores_view(exporter.repository_metrics@) =~= Seq::empty());
        exporter
    }

    /// Whether a repository has a store.
    pub fn knows(&self, repository: &RepositoryRef) -> (known: bool)
        ensures
            known == self@.contains_key(repository.0@),
    {
        self.position(repository).is_some()
    }

    /// The position of a repository's entry.
    fn position(&self, repository: &RepositoryRef) -> (pos: Option<usize>)
        ensures
            match pos {
                Some(i) => i < self.repository_metrics@.len() && self@.contains_key(repository.0@)
                    && stores_view(self.repository_metrics@)[i as int].0 == repository.0@
                    && self@[repository.0@] == self.repository_metrics@[i as int].1,
                None => !self@.contains_key(repository.0@),
            },
    {
        proof {
            use_type_invariant(self);
            lemma_pairs_map_lookup(stores_view(self.repository_metrics@), repository.0@);
        }
        let mut i: usize = 0;
        while i < self.repository_metrics.len()
            invariant
                i <= self.repository_metrics@.len(),
                forall|j: int|
                    0 <= j < i ==> #[trigger] self.repository_metrics@[j].0.0@ != repository.0@,
            decreases self.repository_metrics@.len() - i,
        {
            if self.repository_metrics[i].0.0 == repository.0 {
                proof {
                    use_type_invariant(self);
                    lemma_pairs_map_lookup(stores_view(self.repository_metrics@), repository.0@);
                }
                assert(stores_view(self.repository_metrics@)[i as int].0 == repository.0@);
                return Some(i);
            }
            i = i + 1;
        }
        assert forall|j: int|
            0 <= j < stores_view(self.repository_metrics@).len() implies #[trigger] stores_view(
            self.repository_metrics@,
        )[j].0 != repository.0@ by {
            assert(self.repository_metrics@[j].0.0@ != repository.0@);
        }
        None
    }

    /// Every store of the exporter holds its repository's gauges.
    fn lemma_stores_labelled(&self)
        ensures
            forall|k: Seq<char>| #[trigger] self@.contains_key(k) ==> store_of_repository(self@[k], k),
    {
        proof {
            use_type_invariant(self);
            lemma_stores_of_repositories(self.repository_metrics@);
        }
    }

    /// The position of a repository's entry, made with a fresh store labelled
    /// with the repository's name where there is none.
    fn position_or_insert(&mut self, repository: &RepositoryRef) -> (pos: usize)
        ensures
            pos < final(self).repository_metrics@.len(),
            stores_view(final(self).repository_metrics@)[pos as int].0 == repository.0@,
            final(self)@.contains_key(repository.0@),
            final(self)@[repository.0@] == final(self).repository_metrics@[pos as int].1,
            old(self)@.contains_key(repository.0@) ==> final(self)@ == old(self)@,
            !old(self)@.contains_key(repository.0@) ==> {
                &&& final(self)@ == old(self)@.insert(
                    repository.0@,
                    final(self)@[repository.0@],
                )
                &&& final(self)@[repository.0@].last_snapshot_store is None
            },
    {
        proof {
            use_type_invariant(&*self);
        }
        match self.position(repository) {
            Some(i) => i,
            None => {
                let common_labels = vec![("repository_name".to_string(), repository.0.clone())];
                assert(pairs_view(common_labels@) =~= repository_labels(repository.0@));
                let store = RepositoryMetricStore::new(&common_labels);
                let ghost old_raw = self.repository_metrics@;
                let ghost old_entries = stores_view(self.repository_metrics@);
                let mut entries: Vec<(RepositoryRef, RepositoryMetricStore)> = Vec::new();
                std::mem::swap(&mut entries, &mut self.repository_metrics);
                let ghost stored = store;
                let key = repository.duplicate();
                entries.push((key, store));
                proof {
                    assert forall|j: int| 0 <= j < old_entries.len() implies #[trigger] old_entries[j].0
                        != repository.0@ by {
                        lemma_pairs_map_lookup(old_entries, repository.0@);
                    }
                    lemma_pairs_map_push(old_entries, repository.0@, stored);
                    assert(stores_view(entries@) =~= old_entries.push((repository.0@, stored)));
                    lemma_pairs_map_lookup(stores_view(entries@), repository.0@);
                    assert(stores_view(entries@)[old_entries.len() as int].0 == repository.0@);
                    assert forall|j: int| 0 <= j < entries@.len() implies store_of_repository(
                        #[trigger] entries@[j].1,
                        entries@[j].0.0@,
                    ) by {
                        if j < old_raw.len() {
                            assert(entries@[j] == old_raw[j]);
                        }
                    }
                }
                self.repository_metrics = entries;
                self.repository_metrics.len() - 1
            },
        }
    }

    /// Takes a report: makes the repository's store, labelled with its name,
    /// the first time the repository reports, makes its snapshot gauges the
    /// first time the report has snapshot figures, and gives the gauge values
    /// the report sets: the repository gauges, then the snapshot gauges. The
    /// stores of other repositories stay as they are; so do the repository's
    /// own gauges once made.
    pub fn handle(&mut self, msg: PostRepositoryMetricsMessage) -> (updates: Vec<GaugeUpdate>)
        ensures
            report_handled(old(self)@, final(self)@, msg, update_views(updates@)),
    {
        let ghost before = self@;
        let pos = self.position_or_insert(&msg.repository_ref);
        proof {
            use_type_invariant(&*self);
            lemma_stores_of_repositories(self.repository_metrics@);
        }
        let ghost r = msg.repository_ref.0@;
        let ghost middle = self@;
        let ghost old_raw = self.repository_metrics@;
        let ghost old_entries = stores_view(self.repository_metrics@);
        let ghost kept = old_raw[pos as int].1;
        assert(middle[r] == kept);
        assert(store_of_repository(kept, r));
        let mut entries: Vec<(RepositoryRef, RepositoryMetricStore)> = Vec::new();
        std::mem::swap(&mut entries, &mut self.repository_metrics);
        let mut updates = repository_gauge_update_list(
            &entries[pos].1,
            &msg.repository_metrics,
            &msg.scrape_metrics,
        );
        let ghost first = updates@;
        if let Some(counts) = &msg.last_snapshot_metrics {
            let mut snapshot_updates = {
                let store = entries[pos].1.get_or_init_snapshot_store();
                snapshot_gauge_updates(store, counts)
            };
            let ghost second = snapshot_updates@;
            updates.append(&mut snapshot_updates);
            assert(updates@ =~= first + second);
            assert(update_views(first + second) =~= update_views(first) + update_views(second));
        } else {
            assert(entries@[pos as int].1 == kept);
            assert(updates@ =~= first + Seq::<GaugeUpdate>::empty());
            assert(update_views(first) + Seq::empty() =~= update_views(first));
        }
        let ghost fresh = entries@[pos as int].1;
        assert(same_repository_gauges(fresh, kept));
        assert(kept.last_snapshot_store is Some ==> fresh == kept);
        assert(kept.last_snapshot_store is None && msg.last_snapshot_metrics is Some ==> is_snapshot_store(
            fresh.last_snapshot_store->0,
            pairs_view(kept.common_labels@),
        ));
        proof {
            let updated = (old_entries[pos as int].0, fresh);
            assert(entries@ =~= old_raw.update(pos as int, entries@[pos as int]));
            assert(stores_view(entries@) =~= old_entries.update(pos as int, updated));
            crate::assoc::lemma_pairs_map_update(old_entries, pos as int, fresh);
            lemma_pairs_map_lookup(stores_view(entries@), r);
            assert(store_of_repository(old_raw[pos as int].1, r));
            assert forall|j: int| 0 <= j < entries@.len() implies store_of_repository(
                #[trigger] entries@[j].1,
                entries@[j].0.0@,
            ) by {
                if j != pos {
                    assert(entries@[j] == old_raw[j]);
                }
            }
        }
        self.repository_metrics = entries;
        assert(self@ == middle.insert(r, fresh));
        assert(self@[r] == fresh);
        assert(store_of_repository(fresh, r));
        assert(self@ =~= before.insert(r, fresh));
        updates
    }

    /// The snapshot gauges of a repository, made with the repository's labels
    /// the first time; `None` for a repository that has not reported.
    pub fn get_or_init_snapshot_store(&mut self, repository: &RepositoryRef) -> (store: Option<
        SnapshotMetricStore,
    >)
        ensures
            !old(self)@.contains_key(repository.0@) ==> store is None && final(self)@ == old(
                self,
            )@,
            old(self)@.contains_key(repository.0@) ==> {
                let before = old(self)@[repository.0@];
                let after = final(self)@[repository.0@];
                &&& store is Some
                &&& final(self)@ == old(self)@.insert(repository.0@, after)
                &&& same_repository_gauges(after, before)
                &&& after.last_snapshot_store is Some
                &&& same_snapshot_gauges(store->0, after.last_snapshot_store->0)
                &&& is_snapshot_store(store->0, repository_labels(repository.0@))
                &&& before.last_snapshot_store is Some ==> after == before
            },
    {
        proof {
            use_type_invariant(&*self);
        }
        let pos = match self.position(repository) {
            Some(i) => i,
            None => {
                return None;
            },
        };
        let ghost r = repository.0@;
        let ghost old_raw = self.repository_metrics@;
        let ghost old_entries = stores_view(self.repository_metrics@);
        let mut entries: Vec<(RepositoryRef, RepositoryMetricStore)> = Vec::new();
        std::mem::swap(&mut entries, &mut self.repository_metrics);
        let copy = entries[pos].1.get_or_init_snapshot_store().copy();
        proof {
            let updated = (old_entries[pos as int].0, entries@[pos as int].1);
            assert(entries@ =~= old_raw.update(pos as int, entries@[pos as int]));
            assert(stores_view(entries@) =~= old_entries.update(pos as int, updated));
            crate::assoc::lemma_pairs_map_update(old_entries, pos as int, entries@[pos as int].1);
            lemma_pairs_map_lookup(stores_view(entries@), r);
            assert(store_of_repository(old_raw[pos as int].1, r));
            assert forall|j: int| 0 <= j < entries@.len() implies store_of_repository(
                #[trigger] entries@[j].1,
                entries@[j].0.0@,
            ) by {
                if j != pos {
                    assert(entries@[j] == old_raw[j]);
                }
            }
        }
        self.repository_metrics = entries;
        Some(copy)
    }
}

} // verus!
