//! Request instrumentation for an HTTP server: bounded-cardinality route labels,
//! exclusion rules, label sets and the per-request accounting lifecycle.
//!
//! The server and the metrics sink stay outside this library: a host feeds it
//! plain request facts and performs the observations it decides on.

pub mod config;
pub mod content_length;
pub mod exclusion;
pub mod instrument;
pub mod label_order;
pub mod lifecycle;
pub mod route;

pub use config::{
    ActixWebMetricsBuilder, ActixWebMetricsConfig, ActixWebMetricsExtension, LabelsConfig,
};
pub use instrument::ActixWebMetrics;
