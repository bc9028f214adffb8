use vstd::prelude::*;
use crate::base::memory::{DivideUp, divide_up};
use crate::mapper::map::MpageMap;
use crate::mapper::map_header::{MapHeader, raw_header_size};
use crate::mapper::mapper_address_info::MapperAddressInfo;
use crate::metafs::mf_property::MetaFileType;

verus! {

/// The pages of a map together with their header and the file they are kept in.
pub struct MapContent {
    map_header: MapHeader,
    map: MpageMap,
    file_name: String,
    file_type: MetaFileType,
    map_id: i32,
    entries_per_page: u64,
    addr_info: MapperAddressInfo,
    is_initialized: bool,
}

/// Whether `Init` can lay out `num_entries` entries of `entry_size` bytes in pages of
/// `mpage_size` bytes: an entry fits in a page, and the page count and header size fit in the
/// machine's integers.
pub open spec fn init_fits(num_entries: u64, entry_size: u64, mpage_size: u64) -> bool {
    &&& entry_size > 0
    &&& entry_size <= mpage_size
    &&& num_entries + mpage_size / entry_size <= u64::MAX
    &&& divide_up(num_entries as int, (mpage_size / entry_size) as int) <= usize::MAX
    &&& raw_header_size(divide_up(num_entries as int, (mpage_size / entry_size) as int) as nat) + mpage_size <= u64::MAX
}

impl MapContent {
    /// The pages.
    pub closed spec fn map(&self) -> MpageMap {
        self.map
    }

    /// The header.
    pub closed spec fn header(&self) -> MapHeader {
        self.map_header
    }

    /// How many entries a page holds.
    pub closed spec fn epp(&self) -> u64 {
        self.entries_per_page
    }

    /// Whether the layout has been set up.
    pub closed spec fn initialized(&self) -> bool {
        self.is_initialized
    }

    /// The name of the file the map is kept in.
    pub closed spec fn file_name(&self) -> Seq<char> {
        self.file_name@
    }

    /// The kind of that file.
    pub closed spec fn file_type(&self) -> MetaFileType {
        self.file_type
    }

    /// The id of the map.
    pub closed spec fn id(&self) -> i32 {
        self.map_id
    }

    /// The address geometry.
    pub closed spec fn addr_info(&self) -> MapperAddressInfo {
        self.addr_info
    }

    /// An empty map named `fileName`, not yet laid out.
    pub fn new(mapId: i32, addrInfo: &MapperAddressInfo, fileName: String, fileType: MetaFileType) -> (r: Self)
        ensures
            !r.initialized(),
            r.epp() == 0,
            r.id() == mapId,
            r.addr_info() == *addrInfo,
            r.file_name() == fileName@,
            r.file_type() == fileType,
            r.map().wf(),
            r.map().num_pages() == 0,
            r.header().valid_mpages().len() == 0,
            r.header().touched().len() == 0,
            r.header().used_blks() == 0,
    {
        MapContent {
            map_header: MapHeader::new(),
            map: MpageMap::new(),
            file_name: fileName,
            file_type: fileType,
            map_id: mapId,
            entries_per_page: 0,
            addr_info: *addrInfo,
            is_initialized: false,
        }
    }

    /// Lays out `num_entries` entries of `entry_size` bytes in unallocated pages of `mpage_size`
    /// bytes, once: a map already laid out is left as it is.
    pub fn Init(&mut self, num_entries: u64, entry_size: u64, mpage_size: u64)
        requires
            !old(self).initialized() ==> init_fits(num_entries, entry_size, mpage_size),
        ensures
            old(self).initialized() ==> *final(self) == *old(self),
            !old(self).initialized() ==> {
                let epp = mpage_size / entry_size;
                let n = divide_up(num_entries as int, epp as int);
                &&& final(self).initialized()
                &&& final(self).epp() == epp
                &&& final(self).map().wf()
                &&& final(self).map().num_pages() == n
                &&& final(self).map().page_size() == mpage_size
                &&& final(self).map().pages() == Seq::new(n as nat, |i: int| Seq::<u8>::empty())
                &&& final(self).header().valid_mpages() == Seq::new(n as nat, |i: int| false)
                &&& final(self).header().touched() == Seq::new(n as nat, |i: int| false)
                &&& final(self).header().used_blks() == old(self).header().used_blks()
                &&& final(self).id() == old(self).id()
                &&& final(self).addr_info() == old(self).addr_info()
                &&& final(self).file_name() == old(self).file_name()
                &&& final(self).file_type() == old(self).file_type()
            },
    {
        if self.is_initialized == false {
            self.is_initialized = true;
            self.entries_per_page = mpage_size / entry_size;
            assert(mpage_size / entry_size >= 1) by (nonlinear_arith)
                requires
                    entry_size > 0,
                    entry_size <= mpage_size,
            ;
            let numMpages = DivideUp(num_entries, self.entries_per_page);
            self.map.Init(numMpages, mpage_size);
            self.map_header.Init(numMpages, mpage_size);
        }
    }

    /// Marks the map as no longer laid out.
    pub fn Dispose(&mut self)
        ensures
            !final(self).initialized(),
            final(self).map() == old(self).map(),
            final(self).header() == old(self).header(),
            final(self).epp() == old(self).epp(),
            final(self).id() == old(self).id(),
            final(self).addr_info() == old(self).addr_info(),
            final(self).file_name() == old(self).file_name(),
            final(self).file_type() == old(self).file_type(),
    {
        self.is_initialized = false;
    }

    /// The pages.
    pub fn GetMap(&self) -> (r: &MpageMap)
        ensures
            *r == self.map(),
    {
        &self.map
    }

    /// The header.
    pub fn GetMapHeader(&self) -> (r: &MapHeader)
        ensures
            *r == self.header(),
    {
        &self.map_header
    }

    /// The pages, to change.
    pub fn GetMapMut(&mut self) -> (r: &mut MpageMap)
        ensures
            *r == old(self).map(),
            final(self).map() == *final(r),
            final(self).header() == old(self).header(),
            final(self).epp() == old(self).epp(),
            final(self).initialized() == old(self).initialized(),
            final(self).id() == old(self).id(),
            final(self).addr_info() == old(self).addr_info(),
            final(self).file_name() == old(self).file_name(),
            final(self).file_type() == old(self).file_type(),
    {
        &mut self.map
    }

    /// The header, to change.
    pub fn GetMapHeaderMut(&mut self) -> (r: &mut MapHeader)
        ensures
            *r == old(self).header(),
            final(self).header() == *final(r),
            final(self).map() == old(self).map(),
            final(self).epp() == old(self).epp(),
            final(self).initialized() == old(self).initialized(),
            final(self).id() == old(self).id(),
            final(self).addr_info() == old(self).addr_info(),
            final(self).file_name() == old(self).file_name(),
            final(self).file_type() == old(self).file_type(),
    {
        &mut self.map_header
    }

    /// How many entries a page holds.
    pub fn GetEntriesPerPage(&self) -> (r: u64)
        ensures
            r == self.epp(),
    {
        self.entries_per_page
    }
}

} // verus!
