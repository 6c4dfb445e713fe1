//! A measurement collector core: it models the configuration, the reading of
//! Prometheus-style metric text, the per-cycle transformation of parsed
//! samples into durable capture lines, and the scheduling state of a long
//! soak run. Everything here is verified; the surrounding process (HTTP
//! requests, file writes, the sleep between cycles) hands plain values in
//! and takes plain values back.

pub mod chars;
pub mod config;
pub mod errors;
pub mod laws;
pub mod line;
pub mod metrics;
pub mod num;
pub mod parse;
pub mod record;
pub mod run;
pub mod scan;
pub mod value;
pub mod worker;

pub use config::{default_config_path, Config, Target, TargetView, Variant};
pub use errors::Error;
pub use metrics::{MetricGroup, MetricKind, Sample};
pub use parse::parse_metric_text;
pub use record::{render_record, OutputRecord};
pub use run::{records_for_groups, CycleOutcome, Run};
pub use worker::Worker;
