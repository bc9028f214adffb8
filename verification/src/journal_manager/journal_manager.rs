use vstd::prelude::*;
use crate::array::array_info::ArrayInfo;
use crate::journal_manager::journal_configuration::JournalConfiguration;
use crate::master_context::config::Journal;
use crate::master_context::config_manager::ConfigManager;

verus! {

/// The journal of an array.
pub struct JournalManager {
    config: JournalConfiguration,
}

impl JournalManager {
    /// The journal settings in use.
    pub closed spec fn settings(&self) -> Journal {
        self.config.settings()
    }

    /// The journal of the array `arrayInfo`, with the journal settings of `configManager`.
    pub fn new(arrayInfo: ArrayInfo, configManager: &ConfigManager) -> (r: JournalManager)
        ensures
            r.settings() == configManager.journal(),
    {
        JournalManager { config: JournalConfiguration::new(configManager) }
    }
}

} // verus!
