use vstd::prelude::*;
use crate::array::array_info::ArrayInfo;

verus! {

/// The meta file system of an array.
pub struct MetaFs {
    arrayName_: String,
    arrayId_: u32,
    is_array_loaded: bool,
}

impl MetaFs {
    /// The name of the array.
    pub closed spec fn array_name(&self) -> Seq<char> {
        self.arrayName_@
    }

    /// The index of the array.
    pub closed spec fn array_id(&self) -> u32 {
        self.arrayId_
    }

    /// Whether the array was loaded (rather than created).
    pub closed spec fn loaded(&self) -> bool {
        self.is_array_loaded
    }

    /// The meta file system of the array `array`.
    pub fn new(array: &ArrayInfo, is_array_loaded: bool) -> (r: MetaFs)
        ensures
            r.array_name() == array.name@,
            r.array_id() == array.index,
            r.loaded() == is_array_loaded,
    {
        MetaFs { arrayName_: array.name.clone(), arrayId_: array.index, is_array_loaded }
    }
}

} // verus!
