//! Configuration of the configuration-update service.

use vstd::prelude::*;

verus! {

/// Config for the configuration service.
#[derive(Debug, Clone, Copy)]
pub struct ConfigurationServiceConfig {
    /// Number of votes required to commit the new configuration.
    /// This value should be greater than 2/3 of and less than or equal
    /// to the validators count.
    pub majority_count: Option<u16>,
}

impl Default for ConfigurationServiceConfig {
    /// By default no explicit majority is set: the 2/3 rule applies.
    fn default() -> (r: Self)
        ensures
            r.majority_count is None,
    {
        Self { majority_count: None }
    }
}

} // verus!
