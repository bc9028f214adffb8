use vstd::prelude::*;
use crate::master_context::config::Journal;
use crate::master_context::config_manager::ConfigManager;

verus! {

/// The journal settings, as the configuration gives them.
pub struct JournalConfiguration {
    config: Journal,
}

impl JournalConfiguration {
    /// The settings.
    pub closed spec fn settings(&self) -> Journal {
        self.config
    }

    /// The journal settings of `configManager`'s configuration.
    pub fn new(configManager: &ConfigManager) -> (r: Self)
        ensures
            r.settings() == configManager.journal(),
    {
        JournalConfiguration { config: configManager.journalConfig() }
    }

    /// Whether the journal is enabled.
    pub fn IsEnabled(&self) -> (r: bool)
        ensures
            r == self.settings().enable,
    {
        self.config.enable
    }

    /// Whether the journal runs in debug mode.
    pub fn IsDebugEnabled(&self) -> (r: bool)
        ensures
            r == self.settings().debug_mode,
    {
        self.config.debug_mode
    }

    /// Whether the journal keeps version-stamped checkpoints.
    pub fn IsVscEnabled(&self) -> (r: bool)
        ensures
            r == self.settings().enable_vsc,
    {
        self.config.enable_vsc
    }

    /// The interval, in milliseconds, at which the journal publishes metrics.
    pub fn GetIntervalForMetric(&self) -> (r: u64)
        ensures
            r == self.settings().interval_in_msec_for_metric,
    {
        self.config.interval_in_msec_for_metric
    }

    /// The number of log groups.
    pub fn GetNumLogGroups(&self) -> (r: i32)
        ensures
            r == self.settings().number_of_log_groups,
    {
        self.config.number_of_log_groups
    }
}

} // verus!
