use vstd::prelude::*;
use crate::io::general_io::io_recovery_event_factory::IoRecoveryEventFactory;

verus! {

/// Dispatches block I/Os to devices.
#[derive(PartialEq, Eq, Structural, Debug, Clone, Copy)]
pub struct IODispatcher;

impl IODispatcher {
    /// A dispatcher.
    pub fn new() -> (r: IODispatcher) {
        IODispatcher
    }
}

/// Registers the factory of recovery events; the dispatcher makes its own, so this keeps
/// nothing.
pub fn RegisterRecoveryEventFactory(_recoveryEventFactory: IoRecoveryEventFactory) {
}

/// Completes the I/Os of the devices this thread serves; none are tracked yet.
pub fn CompleteForThreadLocalDeviceList() {
}

} // verus!
