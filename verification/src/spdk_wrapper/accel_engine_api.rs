use vstd::prelude::*;

verus! {

/// The hardware acceleration engine; nothing to set up without one.
pub struct AccelEngineApiImpl;

impl AccelEngineApiImpl {
    /// Sets the engine up; there is none to set up.
    pub fn Initialize(&self) {
    }
}

} // verus!
