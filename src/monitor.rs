use vstd::prelude::*;
use crate::backend::{backend_named, Backend};
use crate::config::MonitorConfig;
use crate::location::LogLocation;
use crate::null_monitor::NullMonitor;
use crate::rollbar_monitor::Rollbar;

verus! {

/// An error-reporting backend.
///
/// `send` is best-effort: it has no precondition and no result, so a failing
/// report never reaches the code that raised it.
pub trait Monitor: Sized {
    /// Builds the backend from its settings.
    fn from_config(config: &MonitorConfig) -> Self;

    /// Reports `error_message`, raised at `location`.
    fn send(&self, error_message: &String, location: &LogLocation);
}

/// Resolves backend selectors to monitors.
pub struct MonitorProvider;

impl MonitorProvider {
    /// The monitor that `monitor` names, built from `config`; `None` for a
    /// selector that names no backend, in which case callers fall back to
    /// `null_monitor`.
    pub fn find_with_config(monitor: &str, config: &MonitorConfig) -> (r: Option<Rollbar>)
        ensures
            r.is_some() <==> backend_named(monitor@) == Some(Backend::Rollbar),
            r matches Some(m) ==> m.spec_access_token() == config.access_token@
                && m.spec_environment() == config.environment@,
    {
        match Backend::from_selector(monitor) {
            Some(Backend::Rollbar) => Some(Rollbar::from_config(config)),
            None => None,
        }
    }

    /// The no-op monitor, always available as a fallback.
    pub fn null_monitor() -> (r: NullMonitor)
        ensures
            r == NullMonitor,
    {
        NullMonitor
    }
}

} // verus!
