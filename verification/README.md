# rustic_prometheus_exporter

A Prometheus exporter for restic repositories. The library in `src/` is
verified with Verus; the program in `app/` reads the configuration, runs the
actors that collect from the repositories, and serves the metrics.

- `src/options.rs`: the repository configuration, and the default backend
  options for a backend.
- `src/option_table.rs`, `src/assoc.rs`: string option tables with unique keys.
- `src/backend.rs`: backend names and how a repository location splits into a
  backend and a path.
- `src/rest_url.rs`: the URL of a REST repository.
- `src/util.rs`: a repository's credentials, backend location and options.
- `src/collector.rs`: the figures of a collection run and the collection
  messages.
- `src/metrics.rs`: the gauges of each repository and the exporter that turns
  reports into gauge values.
- `src/metric_store.rs`: a gauge store that registers gauges on first use.
