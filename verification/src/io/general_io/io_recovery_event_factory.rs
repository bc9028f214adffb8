use vstd::prelude::*;
use crate::bio::ubio::Ubio;
use crate::io::general_io::io_recovery_event::IoRecoveryEvent;

verus! {

/// Makes recovery events for failed block I/Os.
pub struct IoRecoveryEventFactory;

impl IoRecoveryEventFactory {
    /// A factory.
    pub fn new() -> (r: IoRecoveryEventFactory) {
        IoRecoveryEventFactory
    }

    /// The recovery event of `ubio`, with no completer.
    pub fn Create(ubio: Ubio) -> (r: IoRecoveryEvent) {
        IoRecoveryEvent::new(ubio, None)
    }
}

} // verus!
