use vstd::prelude::*;
use crate::array::array_info::{ArrayInfo, PartitionType, find_partition};

verus! {

/// The address geometry that the mapper works with.
#[derive(PartialEq, Eq, Structural, Debug, Clone, Copy)]
pub struct MapperAddressInfo {
    pub max_vsid: u32,
    pub blks_per_stripe: u32,
    pub num_wb_stripes: u32,
    pub mpage_size: u32,
    pub array_id: u32,
}

impl MapperAddressInfo {
    /// The geometry of `arrayInfo`'s array: the stripes of its user data partition, the blocks
    /// per stripe there, and the stripes of its write buffer partition. An array without one of
    /// these partitions is excluded.
    pub fn new(arrayInfo: &ArrayInfo, mpageSize: u32) -> (r: Self)
        requires
            find_partition(arrayInfo.partition_size_info@, PartitionType::USER_DATA) is Some,
            find_partition(arrayInfo.partition_size_info@, PartitionType::WRITE_BUFFER) is Some,
        ensures
            ({
                let user = find_partition(arrayInfo.partition_size_info@, PartitionType::USER_DATA)->0;
                let wb = find_partition(arrayInfo.partition_size_info@, PartitionType::WRITE_BUFFER)->0;
                r == MapperAddressInfo {
                    max_vsid: user.total_stripes,
                    blks_per_stripe: user.blks_per_stripe,
                    num_wb_stripes: wb.total_stripes,
                    mpage_size: mpageSize,
                    array_id: arrayInfo.index,
                }
            }),
    {
        let user_partition_size = arrayInfo.partition_size(PartitionType::USER_DATA).unwrap();
        let wb_partition_size = arrayInfo.partition_size(PartitionType::WRITE_BUFFER).unwrap();
        MapperAddressInfo {
            max_vsid: user_partition_size.total_stripes,
            blks_per_stripe: user_partition_size.blks_per_stripe,
            num_wb_stripes: wb_partition_size.total_stripes,
            mpage_size: mpageSize,
            array_id: arrayInfo.index,
        }
    }
}

} // verus!
