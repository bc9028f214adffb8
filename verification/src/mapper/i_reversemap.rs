use vstd::prelude::*;

verus! {

/// The reverse map of an array: for each stripe, the blocks of the volumes it holds.
pub trait IReverseMap {
}

} // verus!
