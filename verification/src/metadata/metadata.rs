use vstd::prelude::*;
use crate::array::array_info::ArrayInfo;
use crate::journal_manager::journal_manager::JournalManager;
use crate::master_context::config::Journal;
use crate::master_context::config_manager::ConfigManager;

verus! {

/// The metadata of an array: what is known of the array and its journal.
pub struct Metadata {
    arrayInfo: ArrayInfo,
    journalManager: JournalManager,
}

impl Metadata {
    /// The name of the array.
    pub closed spec fn array_name(&self) -> Seq<char> {
        self.arrayInfo.name@
    }

    /// The index of the array.
    pub closed spec fn array_index(&self) -> u32 {
        self.arrayInfo.index
    }

    /// The journal settings in use.
    pub closed spec fn journal(&self) -> Journal {
        self.journalManager.settings()
    }

    /// The metadata of the array `arrayInfo`, with a journal set up from `configManager`.
    pub fn new(arrayInfo: ArrayInfo, configManager: &ConfigManager) -> (r: Metadata)
        ensures
            r.array_name() == arrayInfo.name@,
            r.array_index() == arrayInfo.index,
            r.journal() == configManager.journal(),
    {
        let journalManager = JournalManager::new(arrayInfo.clone(), configManager);
        Metadata { arrayInfo, journalManager }
    }
}

} // verus!
