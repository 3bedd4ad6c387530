use vstd::prelude::*;

verus! {

/// Settings a reporting backend is built from.
pub struct MonitorConfig {
    pub access_token: String,
    pub environment: String,
}

impl MonitorConfig {
    pub fn new(access_token: String, environment: String) -> (r: MonitorConfig)
        ensures
            r.access_token@ == access_token@,
            r.environment@ == environment@,
    {
        MonitorConfig { access_token, environment }
    }
}

} // verus!
