use vstd::prelude::*;

verus! {

/// The settings of the meta file system; nothing is configured yet.
pub struct MetaFsConfigManager;

impl MetaFsConfigManager {
    /// A manager of no settings.
    pub fn new() -> (r: MetaFsConfigManager) {
        MetaFsConfigManager
    }

    /// Reads the settings; there are none to read.
    pub fn Init(&self) {
    }
}

/// The service that runs the meta file systems.
pub struct MetaFsService {
    configManager: MetaFsConfigManager,
}

impl MetaFsService {
    /// The service, with its settings manager.
    pub fn new() -> (r: MetaFsService) {
        MetaFsService { configManager: MetaFsConfigManager::new() }
    }

    /// Reads the settings and sets up the schedulers (none yet) for `totalCoreCount` cores.
    pub fn Initialize(&self, totalCoreCount: u32, schedSet: Vec<u8>, mioSet: Vec<u8>) {
        self.configManager.Init();
        self._CreateScheduler(totalCoreCount, schedSet, mioSet);
    }

    /// Sets up the schedulers; none are made yet.
    fn _CreateScheduler(&self, _totalCoreCount: u32, _schedSet: Vec<u8>, _mioSet: Vec<u8>) {
    }
}

} // verus!
