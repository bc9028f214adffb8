use vstd::prelude::*;
use crate::array::array_info::ArrayInfo;

verus! {

/// The NVMe-oF target of an array.
pub struct Nvmf {
    arrayInfo: ArrayInfo,
}

impl Nvmf {
    /// The name of the array.
    pub closed spec fn array_name(&self) -> Seq<char> {
        self.arrayInfo.name@
    }

    /// The index of the array.
    pub closed spec fn array_index(&self) -> u32 {
        self.arrayInfo.index
    }

    /// The target of the array `arrayInfo`.
    pub fn new(arrayInfo: ArrayInfo) -> (r: Nvmf)
        ensures
            r.array_name() == arrayInfo.name@,
            r.array_index() == arrayInfo.index,
    {
        Nvmf { arrayInfo }
    }
}

} // verus!
