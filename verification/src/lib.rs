//! Verified core of a Prometheus exporter for restic repositories.
pub mod assoc;
pub mod backend;
pub mod collector;
pub mod metric_store;
pub mod metrics;
pub mod option_table;
pub mod options;
pub mod rest_url;
pub mod util;

pub use option_table::OptionTable;
