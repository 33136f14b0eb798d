//! Periodic network performance monitoring: the measurement cycle.
//!
//! A cycle hands the output of one run of the speed-test tool to
//! [`NetworkMonitor::collect_metrics`], which yields one [`NetworkMetrics`]
//! record or a classified [`CollectionError`]. The [`Scheduler`] decides, event
//! by event, when a cycle starts and what becomes of its outcome.

pub mod json;
pub mod monitor;
pub mod record;
pub mod scheduler;
pub mod schema;
pub mod units;

pub use monitor::{CollectionError, NetworkMonitor, ToolAttempt};
pub use record::{NetworkMetrics, SpeedTestResult};
pub use scheduler::{Action, Event, Phase, Scheduler};
