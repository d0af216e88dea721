use vstd::prelude::*;

verus! {

/// Application-wide settings.
pub struct AppConfig {
    /// How often background refresh tasks poll the data source, in
    /// milliseconds.
    pub update_rate: u64,
}

impl Default for AppConfig {
    /// The default configuration polls every two seconds.
    fn default() -> (r: Self)
        ensures
            r.update_rate == 2000,
    {
        Self { update_rate: 2000 }
    }
}

} // verus!
