use vstd::prelude::*;
use crate::bio::ubio::Ubio;
use crate::event_scheduler::io_completer::IoCompleter;

verus! {

/// Recovers a failed block I/O; nothing is recovered yet.
pub struct IoRecoveryEvent;

impl IoRecoveryEvent {
    /// The recovery of `ubio`, completed by `ioCompleter` when given.
    pub fn new(ubio: Ubio, ioCompleter: Option<IoCompleter>) -> (r: IoRecoveryEvent) {
        IoRecoveryEvent
    }
}

} // verus!
