use vstd::prelude::*;

verus! {

/// Whether a map is being flushed.
#[derive(PartialEq, Eq, Structural, Debug, Clone, Copy)]
pub enum MapFlushState {
    FLUSHING,
    FLUSH_DONE,
}

/// Whether a map is being loaded.
#[derive(PartialEq, Eq, Structural, Debug, Clone, Copy)]
pub enum MapLoadState {
    NOT_LOADED,
    LOADING,
    LOAD_DONE,
}

} // verus!
