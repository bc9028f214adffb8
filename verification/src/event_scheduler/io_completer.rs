use vstd::prelude::*;

verus! {

/// Completes block I/Os.
#[derive(PartialEq, Eq, Structural, Debug, Clone, Copy)]
pub struct IoCompleter;

} // verus!
