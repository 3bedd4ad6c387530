//! A small error and panic reporting facade: a `Monitor` capability with a
//! no-op backend and a Rollbar backend, and a provider that picks a backend
//! from a selector string.

pub mod backend;
pub mod config;
pub mod location;
pub mod monitor;
pub mod null_monitor;
pub mod report;
pub mod rollbar_monitor;

pub use backend::Backend;
pub use config::MonitorConfig;
pub use location::LogLocation;
pub use monitor::{Monitor, MonitorProvider};
pub use null_monitor::NullMonitor;
pub use report::{ErrorReport, Frame};
pub use rollbar_monitor::Rollbar;
