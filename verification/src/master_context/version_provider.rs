use vstd::prelude::*;

verus! {

/// Knows the version of the system.
pub struct VersionProvider {
    VERSION: &'static str,
}

impl VersionProvider {
    /// The version the provider reports.
    pub closed spec fn version(&self) -> Seq<char> {
        self.VERSION@
    }

    /// A provider of version `VERSION`.
    pub fn new(VERSION: &'static str) -> (r: VersionProvider)
        ensures
            r.version() == VERSION@,
    {
        VersionProvider { VERSION }
    }

    /// The version.
    pub fn ver(&self) -> (r: &'static str)
        ensures
            r@ == self.version(),
    {
        self.VERSION
    }
}

} // verus!
