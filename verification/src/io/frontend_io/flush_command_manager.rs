use vstd::prelude::*;

verus! {

/// Runs flush commands; none yet.
pub struct FlushCmdManager;

impl FlushCmdManager {
    fn new() -> (r: FlushCmdManager) {
        FlushCmdManager
    }
}

} // verus!
