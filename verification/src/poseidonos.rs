use vstd::prelude::*;
use crate::base::pos_event_id::PosEventId;

verus! {

/// The configuration the system starts with; nothing is configured yet.
pub struct PosConfiguration;

/// The storage system as a whole: it starts, runs and stops.
pub struct Poseidonos;

impl Poseidonos {
    /// Loads the configuration and runs the start-up steps that need nothing from outside the
    /// library; `SUCCESS` once the configuration loads, `POS_TRACE_INIT_FAIL` when it does not.
    /// The steps that bring up the storage framework, the thread model and the I/O interface
    /// are the caller's to run after a success.
    pub fn Init(&self, _args: Vec<&str>) -> (r: PosEventId)
        ensures
            r == PosEventId::SUCCESS,
    {
        match self._LoadConfiguration() {
            Ok(conf) => {
                self._InitSignalHandler(&conf);
                self._LoadVersion(&conf);
                self._InitAffinity(&conf);
                self._SetPerfImpact(&conf);
                self._InitDebugInfo(&conf);
                self._InitAIR(&conf);
                self._InitMemoryChecker(&conf);
                self._InitResourceChecker(&conf);
                self._InitReplicatorManager(&conf);
                self._InitTraceExporter(&conf);
                PosEventId::SUCCESS
            },
            Err(_) => PosEventId::POS_TRACE_INIT_FAIL,
        }
    }

    /// Runs the system; nothing runs yet.
    pub fn Run(&self) {
    }

    /// Stops the system; nothing to stop yet.
    pub fn Terminate(&self) {
    }

    /// The configuration; there is nothing to load yet, so this succeeds.
    fn _LoadConfiguration(&self) -> (r: Result<PosConfiguration, PosEventId>)
        ensures
            r is Ok,
    {
        Ok(PosConfiguration)
    }

    fn _InitSignalHandler(&self, _conf: &PosConfiguration) {
    }

    fn _LoadVersion(&self, _conf: &PosConfiguration) {
    }

    fn _InitAffinity(&self, _conf: &PosConfiguration) {
    }

    fn _SetPerfImpact(&self, _conf: &PosConfiguration) {
    }

    fn _InitDebugInfo(&self, _conf: &PosConfiguration) {
    }

    fn _InitAIR(&self, _conf: &PosConfiguration) {
    }

    fn _InitMemoryChecker(&self, _conf: &PosConfiguration) {
    }

    fn _InitResourceChecker(&self, _conf: &PosConfiguration) {
    }

    fn _InitReplicatorManager(&self, _conf: &PosConfiguration) {
    }

    fn _InitTraceExporter(&self, _conf: &PosConfiguration) {
    }
}

} // verus!
