use vstd::prelude::*;

verus! {

/// The kinds of meta files.
#[derive(PartialEq, Eq, Structural, Debug, Clone, Copy)]
pub enum MetaFileType {
    SpecialPurposeMap,
    Journal,
    MapFile,
    General,
}

} // verus!
