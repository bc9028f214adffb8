use vstd::prelude::*;

verus! {

/// Hands block I/Os to the devices they go to.
pub struct IODispatcherSubmission;

impl IODispatcherSubmission {
    /// A submitter.
    pub fn new() -> (r: IODispatcherSubmission) {
        IODispatcherSubmission
    }
}

} // verus!
