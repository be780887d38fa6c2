use std::time::Duration;

use rustic_prometheus_exporter::collector::{
    checked_blob_totals, checked_file_size_total, checked_repository_metrics_snapshot,
    repository_metrics_snapshot, BlobCounts, RepositoryRef, ScrapeMetricsSnapshot,
};
use rustic_prometheus_exporter::metric_store::{check_results_passed, MetricStore, StoreGauge};
use rustic_prometheus_exporter::metrics::{
    snapshot_gauge_updates, GaugeReading, MetricsExporter, PostRepositoryMetricsMessage,
    RepositoryMetricStore, SnapshotCounts, SnapshotMetricStore,
};

fn blobs() -> Vec<BlobCounts> {
    vec![
        BlobCounts { count: 10, size: 1000, data_size: 3000 },
        BlobCounts { count: 5, size: 200, data_size: 250 },
    ]
}

fn labels(name: &str) -> Vec<(String, String)> {
    vec![("repository_name".to_string(), name.to_string())]
}

fn report(name: &str, snapshots: usize, ok: bool) -> PostRepositoryMetricsMessage {
    PostRepositoryMetricsMessage {
        repository_ref: RepositoryRef(name.to_string()),
        repository_metrics: repository_metrics_snapshot(snapshots, ok, &blobs()),
        last_snapshot_metrics: None,
        scrape_metrics: ScrapeMetricsSnapshot { scrape_duration: Duration::from_millis(1500) },
    }
}

#[test]
fn blob_totals_are_sums() {
    assert_eq!(checked_blob_totals(&blobs()), Some((15, 1200, 3250)));
    assert_eq!(checked_blob_totals(&Vec::new()), Some((0, 0, 0)));
}

#[test]
fn blob_totals_of_joined_lists_add_up() {
    let mut joined = blobs();
    joined.extend(blobs());
    assert_eq!(checked_blob_totals(&joined), Some((30, 2400, 6500)));
}

#[test]
fn blob_totals_overflow_is_none() {
    let v = vec![
        BlobCounts { count: 1, size: u64::MAX, data_size: 0 },
        BlobCounts { count: 1, size: 1, data_size: 0 },
    ];
    assert_eq!(checked_blob_totals(&v), None);
    assert!(checked_repository_metrics_snapshot(1, true, &v).is_none());
}

#[test]
fn repository_snapshot_from_collection() {
    let s = repository_metrics_snapshot(7, true, &blobs());
    assert_eq!(s.total_snapshots, 7);
    assert!(s.check_result);
    assert_eq!(s.blob_count_total, 15);
    assert_eq!(s.blob_size_total, 1200);
    assert_eq!(s.blob_size_uncompressed_total, 3250);
    let c = checked_repository_metrics_snapshot(7, false, &blobs()).unwrap();
    assert!(!c.check_result);
    assert_eq!(c.blob_size_uncompressed_total, 3250);
}

#[test]
fn file_size_totals() {
    assert_eq!(checked_file_size_total(&vec![1, 2, 3]), Some(6));
    assert_eq!(checked_file_size_total(&vec![u64::MAX, 1]), None);
}

#[test]
fn repository_ref_equality() {
    assert!(RepositoryRef("a".to_string()) == RepositoryRef("a".to_string()));
    assert!(RepositoryRef("a".to_string()) != RepositoryRef("b".to_string()));
    assert!(RepositoryRef("a".to_string()).duplicate() == RepositoryRef("a".to_string()));
}

#[test]
fn repository_store_gauge_names() {
    let store = RepositoryMetricStore::new(&labels("my-repo"));
    assert_eq!(store.total_snapshots.name, "restic.snapshots_total");
    assert_eq!(store.check_success.name, "restic.check_success");
    assert_eq!(store.scrape_duration_seconds.name, "restic.scrape_duration_seconds");
    assert_eq!(store.size_total.name, "restic.size_total");
    assert_eq!(store.uncompressed_size_total.name, "restic.uncompressed_size_total");
    assert_eq!(store.compression_ratio.name, "restic.compression_ratio");
    assert_eq!(store.blob_count_total.name, "restic.blob_count_total");
    assert_eq!(store.blob_count_total.labels, labels("my-repo"));
    assert_eq!(store.common_labels, labels("my-repo"));
    assert!(store.last_snapshot_store.is_none());
}

#[test]
fn snapshot_store_made_once() {
    let mut store = RepositoryMetricStore::new(&labels("my-repo"));
    let first = store.get_or_init_snapshot_store().started.name.clone();
    assert_eq!(first, "restic.snapshot.started");
    assert_eq!(store.get_or_init_snapshot_store().dirs_total.name, "restic.snapshot.dirs_total");
    assert_eq!(store.get_or_init_snapshot_store().files_new.labels, labels("my-repo"));
    assert!(store.last_snapshot_store.is_some());
}

#[test]
fn exporter_report_values() {
    let mut exporter = MetricsExporter::new();
    let updates = exporter.handle(report("my-repo", 3, true));
    let names: Vec<&str> = updates.iter().map(|u| u.gauge.name.as_str()).collect();
    assert_eq!(
        names,
        vec![
            "restic.snapshots_total",
            "restic.check_success",
            "restic.scrape_duration_seconds",
            "restic.blob_count_total",
            "restic.size_total",
            "restic.uncompressed_size_total",
            "restic.compression_ratio",
        ]
    );
    assert_eq!(updates[0].reading, GaugeReading::Unsigned(3));
    assert_eq!(updates[1].reading, GaugeReading::Signed(1));
    assert_eq!(updates[2].reading, GaugeReading::Seconds(Duration::from_millis(1500)));
    assert_eq!(updates[3].reading, GaugeReading::Unsigned(15));
    assert_eq!(updates[4].reading, GaugeReading::Unsigned(1200));
    assert_eq!(updates[5].reading, GaugeReading::Unsigned(3250));
    assert_eq!(updates[6].reading, GaugeReading::Ratio(3250, 1200));
    for u in &updates {
        assert_eq!(u.gauge.labels, labels("my-repo"));
    }
}

#[test]
fn exporter_failed_check_reads_zero() {
    let mut exporter = MetricsExporter::new();
    let updates = exporter.handle(report("my-repo", 0, false));
    assert_eq!(updates[1].reading, GaugeReading::Signed(0));
    assert_eq!(updates[0].reading, GaugeReading::Unsigned(0));
}

#[test]
fn exporter_keeps_one_store_per_repository() {
    let mut exporter = MetricsExporter::new();
    let a = RepositoryRef("a".to_string());
    let b = RepositoryRef("b".to_string());
    assert!(!exporter.knows(&a));
    exporter.handle(report("a", 1, true));
    assert!(exporter.knows(&a));
    assert!(!exporter.knows(&b));
    let second = exporter.handle(report("a", 2, true));
    assert_eq!(second[0].reading, GaugeReading::Unsigned(2));
    let other = exporter.handle(report("b", 1, true));
    assert_eq!(other[0].gauge.labels, labels("b"));
    assert!(exporter.knows(&b));
}

#[test]
fn exporter_snapshot_store() {
    let mut exporter = MetricsExporter::new();
    let a = RepositoryRef("a".to_string());
    assert!(exporter.get_or_init_snapshot_store(&a).is_none());
    exporter.handle(report("a", 1, true));
    let s = exporter.get_or_init_snapshot_store(&a).unwrap();
    assert_eq!(s.duration.name, "restic.snapshot.duration");
    assert_eq!(s.duration.labels, labels("a"));
    let again = exporter.get_or_init_snapshot_store(&a).unwrap();
    assert_eq!(again.size_added_bytes, s.size_added_bytes);
}

#[test]
fn metric_store_registers_on_first_set() {
    let mut store = MetricStore::new(labels("my-repo"));
    assert!(!store.is_registered(StoreGauge::SizeTotal));
    let u = store.set_size_total(42);
    assert_eq!(u.gauge.name, "restic.size_total");
    assert_eq!(u.gauge.labels, labels("my-repo"));
    assert_eq!(u.reading, GaugeReading::Unsigned(42));
    assert!(store.is_registered(StoreGauge::SizeTotal));
    let again = store.set_size_total(43);
    assert_eq!(again.gauge, u.gauge);
    assert_eq!(again.reading, GaugeReading::Unsigned(43));
    assert!(!store.is_registered(StoreGauge::BlobCountTotal));
    assert_eq!(store.common_labels(), &labels("my-repo"));
}

#[test]
fn metric_store_readings() {
    let mut store = MetricStore::new(labels("r"));
    assert_eq!(store.set_total_snapshots(9).reading, GaugeReading::SinglePrecision(9));
    assert_eq!(store.set_check_outcome(true).reading, GaugeReading::Signed(1));
    assert_eq!(store.set_check_outcome(false).reading, GaugeReading::Signed(0));
    assert_eq!(
        store.set_check_success(rustic_core::CheckResults(Vec::new())).reading,
        GaugeReading::Signed(1)
    );
    assert_eq!(store.set_locks_total(3).reading, GaugeReading::Unsigned(3));
    assert_eq!(store.set_uncompressed_size_total(5).gauge.name, "restic.uncompressed_size_total");
    assert_eq!(store.set_blob_count_total(6).gauge.name, "restic.blob_count_total");
    assert_eq!(store.scrape_duration_seconds_gauge().name, "restic.scrape_duration_seconds");
    assert_eq!(store.compression_ratio_gauge().name, "restic.compression_ratio");
    assert_eq!(store.set_locks_total(1).gauge.name, "restic.locks_total");
}

fn counts() -> SnapshotCounts {
    SnapshotCounts {
        started_ms: 1000,
        finished_ms: 5000,
        size_total_bytes: 10,
        size_added_bytes: 2,
        files_new: 1,
        files_changed: 3,
        files_unmodified: 4,
        files_total: 8,
        dirs_new: 5,
        dirs_changed: 6,
        dirs_unmodified: 7,
        dirs_total: 18,
    }
}

#[test]
fn snapshot_updates_follow_figures() {
    let store = SnapshotMetricStore::new(&labels("a"));
    let updates = snapshot_gauge_updates(&store, &counts());
    assert_eq!(updates.len(), 12);
    assert_eq!(updates[0].gauge.name, "restic.snapshot.started");
    assert_eq!(updates[0].reading, GaugeReading::Signed(1000));
    assert_eq!(updates[1].gauge.name, "restic.snapshot.finished");
    assert_eq!(updates[1].reading, GaugeReading::Signed(5000));
    assert_eq!(updates[2].gauge.name, "restic.snapshot.size_total_bytes");
    assert_eq!(updates[2].reading, GaugeReading::Unsigned(10));
    assert_eq!(updates[11].gauge.name, "restic.snapshot.dirs_total");
    assert_eq!(updates[11].reading, GaugeReading::Unsigned(18));
}

#[test]
fn exporter_report_with_snapshot() {
    let mut exporter = MetricsExporter::new();
    let mut msg = report("a", 2, true);
    msg.last_snapshot_metrics = Some(counts());
    let updates = exporter.handle(msg);
    assert_eq!(updates.len(), 19);
    assert_eq!(updates[7].gauge.name, "restic.snapshot.started");
    assert_eq!(updates[7].gauge.labels, labels("a"));
    assert_eq!(updates[18].reading, GaugeReading::Unsigned(18));
    let later = exporter.handle(report("a", 3, true));
    assert_eq!(later.len(), 7);
    let store = exporter.get_or_init_snapshot_store(&RepositoryRef("a".to_string())).unwrap();
    assert_eq!(store.duration.name, "restic.snapshot.duration");
}

#[test]
fn empty_check_results_pass() {
    assert!(check_results_passed(&rustic_core::CheckResults(Vec::new())));
}
