use vstd::prelude::*;

verus! {

/// What submits I/Os on behalf of the other components.
pub trait IIOSubmitHandler {
}

} // verus!
