use vstd::prelude::*;

verus! {

/// The partitions an array is divided into.
#[derive(PartialEq, Eq, Structural, Debug, Clone, Copy)]
pub enum PartitionType {
    META_NVM,
    WRITE_BUFFER,
    META_SSD,
    USER_DATA,
    JOURNAL_SSD,
}

/// The logical size of a partition: how many stripes it has and how many blocks a stripe has.
#[derive(PartialEq, Eq, Structural, Debug, Clone, Copy)]
pub struct PartitionLogicalSize {
    pub total_stripes: u32,
    pub blks_per_stripe: u32,
}

/// What the rest of the system knows of an array: its name, its index, and the sizes of its
/// partitions.
#[derive(Clone, Debug)]
pub struct ArrayInfo {
    pub name: String,
    pub index: u32,
    pub partition_size_info: Vec<(PartitionType, PartitionLogicalSize)>,
}

/// The size recorded first for partition `t` in `sizes`, if any.
pub open spec fn find_partition(sizes: Seq<(PartitionType, PartitionLogicalSize)>, t: PartitionType) -> Option<PartitionLogicalSize>
    decreases sizes.len(),
{
    if sizes.len() == 0 {
        None
    } else if sizes[0].0 == t {
        Some(sizes[0].1)
    } else {
        find_partition(sizes.drop_first(), t)
    }
}

impl ArrayInfo {
    /// The size recorded first for partition `t`, if any.
    pub fn partition_size(&self, t: PartitionType) -> (r: Option<PartitionLogicalSize>)
        ensures
            r == find_partition(self.partition_size_info@, t),
    {
        let mut i: usize = 0;
        assert(self.partition_size_info@.skip(0) =~= self.partition_size_info@);
        while i < self.partition_size_info.len()
            invariant
                i <= self.partition_size_info@.len(),
                find_partition(self.partition_size_info@, t) == find_partition(self.partition_size_info@.skip(i as int), t),
            decreases self.partition_size_info@.len() - i,
        {
            let entry = self.partition_size_info[i];
            proof {
                let rest = self.partition_size_info@.skip(i as int);
                assert(rest[0] == entry);
                assert(rest.drop_first() =~= self.partition_size_info@.skip(i as int + 1));
            }
            if entry.0 == t {
                return Some(entry.1);
            }
            i = i + 1;
        }
        proof {
            assert(self.partition_size_info@.skip(i as int).len() == 0);
        }
        None
    }
}

} // verus!
