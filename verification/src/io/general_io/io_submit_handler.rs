use vstd::prelude::*;
use crate::io_submit_interface::i_io_submit_handler::IIOSubmitHandler;

verus! {

/// Submits I/Os on behalf of the other components.
pub struct IOSubmitHandler;

impl IOSubmitHandler {
    /// A handler.
    pub fn new() -> (r: IOSubmitHandler) {
        IOSubmitHandler
    }
}

impl IIOSubmitHandler for IOSubmitHandler {
}

} // verus!
