use poseidonos_rtype::base::address_type::{StripeAddr, StripeLoc, VirtualBlkAddr, VirtualBlks, UnmapVsa, UNMAP_STRIPE};
use poseidonos_rtype::base::memory::Align;
use poseidonos_rtype::mapper::map::{MpageMap, MPAGE_FILL};
use poseidonos_rtype::mapper::map_header::MapHeader;
use poseidonos_rtype::mapper::mapper_address_info::MapperAddressInfo;
use poseidonos_rtype::mapper::stripemap_content::StripeMapContent;
use poseidonos_rtype::mapper::vsamap_content::VSAMapContent;
use poseidonos_rtype::mapper::vsamap_manager::VSAMapManager;

#[test]
fn test_allocating_new_mpage() {
    let mut map = MpageMap::new();
    map.Init(10, 4032);
    assert!(map.AllocateMpage(3).is_some());
    assert!(map.AllocateMpage(3).is_none()); // cannot allocate again

    let mpage = map.GetMpage(3);
    assert!(mpage.is_some());
}

#[test]
fn test_updating_mpage() {
    let mut map = MpageMap::new();
    map.Init(10, 4032);
    let mpage = map.AllocateMpage(2).unwrap();

    for index in 0..4032 {
        mpage[index] = 0xA;
    }

    let mpage = map.GetMpage(2).unwrap();
    for index in 0..4032 {
        assert_eq!(mpage[index], 0xA);
    }
}

#[test]
fn mpage_allocation_fills_the_page() {
    let mut map = MpageMap::new();
    map.Init(4, 16);
    assert_eq!(map.GetNumMpages(), 4);
    assert_eq!(map.GetSize(), 16);
    assert_eq!(map.GetMpage(1).unwrap().len(), 0);
    let page = map.AllocateMpage(1).unwrap();
    assert_eq!(page.len(), 16);
    assert!(page.iter().all(|b| *b == MPAGE_FILL));
    assert!(map.GetMpage(5).is_none());
}

#[test]
fn test_bitvec() {
    let bitmap = bit_vec::BitVec::from_elem(128, false);
    assert_eq!(bitmap.storage().len(), 4);

    let bitmap = bit_vec::BitVec::from_elem(130, false);
    assert_eq!(bitmap.storage().len(), 5);
    assert_eq!(bitmap.storage().len() * std::mem::size_of::<u32>(), 20);
}

#[test]
fn test_map_header_initialization() {
    let mut header = MapHeader::new();
    header.Init(10, 4032);

    let actual_size = header.GetSize();
    assert_eq!(Align(actual_size, 4032), actual_size);
}

#[test]
fn map_header_size_covers_the_page_bitmap() {
    let mut header = MapHeader::new();
    // 130 pages take 5 blocks of 32 bits: 32 + 20 bytes, rounded up to one page of 64.
    header.Init(130, 64);
    assert_eq!(header.GetSize(), 64);
    // 600 pages take 19 blocks: 32 + 76 bytes, two pages of 64.
    header.Init(600, 64);
    assert_eq!(header.GetSize(), 128);
    assert_eq!(header.GetNumTotalTouchedMpages(), 600);
}

#[test]
fn test_set_mpage_allocated() {
    let mut header = MapHeader::new();
    header.Init(100, 4032);

    header.SetMapAllocated(3);
    header.SetMapAllocated(5);

    assert_eq!(header.GetNumValidMpages(), 2);

    let mpage_map = header.GetMpageMap();
    assert_eq!(mpage_map.get(3), Some(true));
    assert_eq!(mpage_map.get(5), Some(true));
}

#[test]
fn test_num_used_blocks() {
    let mut header = MapHeader::new();
    header.Init(100, 4032);

    header.UpdateNumUsedBlks(UnmapVsa());
    header.UpdateNumUsedBlks(UnmapVsa());

    assert_eq!(header.GetNumUsedBlks(), 2);

    header.UpdateNumUsedBlks(VirtualBlkAddr { stripe_id: 1, offset: 2 });
    assert_eq!(header.GetNumUsedBlks(), 2);
}

#[test]
fn test_touched_mpages() {
    let mut header = MapHeader::new();
    header.Init(100, 4032);

    header.SetTouchedMpageBit(50);
    header.SetTouchedMpageBit(60);

    assert_eq!(header.GetNumTouchedMpagesSet(), 2);

    let touched_mpages = header.GetTouchedMpages();
    assert_eq!(touched_mpages.get(50), Some(true));
    assert_eq!(touched_mpages.get(60), Some(true));
}

fn stripe_addr_info() -> MapperAddressInfo {
    MapperAddressInfo {
        max_vsid: 1000,
        blks_per_stripe: 128,
        num_wb_stripes: 20,
        mpage_size: 4032,
        array_id: 0,
    }
}

#[test]
fn stripemap_content_test_get_set_entry() {
    let addr_info = stripe_addr_info();
    let mut stripemap_content = StripeMapContent::new(0, &addr_info);
    stripemap_content.InMemoryInit(1000, 4032);

    assert_eq!(stripemap_content.GetEntry(20).stripe_id, UNMAP_STRIPE);
    let expected = StripeAddr {
        stripe_id: 600,
        stripe_loc: StripeLoc::IN_USER_AREA,
    };
    assert_eq!(stripemap_content.SetEntry(20, expected).is_ok(), true);
    assert_eq!(stripemap_content.GetEntry(20), expected);
}

#[test]
fn stripemap_content_test_dirty_page_list() {
    let addr_info = stripe_addr_info();
    let mut stripemap_content = StripeMapContent::new(0, &addr_info);
    stripemap_content.InMemoryInit(1000, 4032);

    // 4032 / 8 = 504 entries per page
    let dirty_list = stripemap_content.GetDirtyPages(0, 1);
    assert_eq!(dirty_list.len(), 1);
    assert_eq!(dirty_list.get(&0).is_some(), true);

    let dirty_list = stripemap_content.GetDirtyPages(550, 1);
    assert_eq!(dirty_list.len(), 1);
    assert_eq!(dirty_list.get(&1).is_some(), true);
}

#[test]
fn stripemap_entries_keep_their_location() {
    let addr_info = stripe_addr_info();
    let mut content = StripeMapContent::new(0, &addr_info);
    content.InMemoryInit(1000, 4032);
    let a = StripeAddr { stripe_id: 7, stripe_loc: StripeLoc::IN_WRITE_BUFFER_AREA };
    let b = StripeAddr { stripe_id: 9, stripe_loc: StripeLoc::IN_USER_AREA };
    content.SetEntry(600, a).unwrap();
    content.SetEntry(601, b).unwrap();
    assert_eq!(content.GetEntry(600), a);
    assert_eq!(content.GetEntry(601), b);
    // A stripe of a page never written is unmapped.
    assert_eq!(content.GetEntry(3).stripe_id, UNMAP_STRIPE);
}

fn vsa_addr_info() -> MapperAddressInfo {
    MapperAddressInfo {
        max_vsid: 1000,
        blks_per_stripe: 128,
        num_wb_stripes: 10,
        mpage_size: 4032,
        array_id: 0,
    }
}

#[test]
fn vsamap_content_test_get_set_entry() {
    let addr_info = vsa_addr_info();
    let mut vsamap_content = VSAMapContent::new(0, &addr_info);
    assert_eq!(vsamap_content.InMemoryInit(0, 128 * 1000, 4032).is_ok(), true);

    assert_eq!(vsamap_content.GetEntry(10), UnmapVsa());
    let expected = VirtualBlkAddr {
        stripe_id: 30,
        offset: 5,
    };
    assert_eq!(vsamap_content.SetEntry(10, expected).is_ok(), true);
    assert_eq!(vsamap_content.GetEntry(10), expected);
}

#[test]
fn vsamap_content_test_dirty_page_list() {
    let addr_info = vsa_addr_info();
    let mut vsamap_content = VSAMapContent::new(0, &addr_info);
    assert_eq!(vsamap_content.InMemoryInit(0, 128 * 1000, 4032).is_ok(), true);

    // 4032 / 16 = 252 entries per page
    let dirty_list = vsamap_content.GetDirtyPages(0, 250);
    assert_eq!(dirty_list.len(), 1);
    assert_eq!(dirty_list.get(&0).is_some(), true);

    let dirty_list = vsamap_content.GetDirtyPages(0, 400);
    assert_eq!(dirty_list.len(), 2);
    assert_eq!(dirty_list.get(&0).is_some(), true);
    assert_eq!(dirty_list.get(&1).is_some(), true);
}

#[test]
fn vsamap_dirty_pages_stop_at_a_page_boundary() {
    let addr_info = vsa_addr_info();
    let mut content = VSAMapContent::new(0, &addr_info);
    content.InMemoryInit(0, 128 * 1000, 4032).unwrap();
    // Entries 0 .. 504 end exactly at the start of page 2: pages 0 and 1 only.
    let dirty_list = content.GetDirtyPages(0, 504);
    assert_eq!(dirty_list.len(), 2);
    assert!(dirty_list.contains(&0) && dirty_list.contains(&1));
}

#[test]
fn vsamap_write_leaves_other_entries() {
    let addr_info = vsa_addr_info();
    let mut content = VSAMapContent::new(3, &addr_info);
    content.InMemoryInit(0, 128 * 1000, 4032).unwrap();
    let a = VirtualBlkAddr { stripe_id: 1, offset: 0xFFFF_FFFF_0000_0001 };
    let b = VirtualBlkAddr { stripe_id: 2, offset: 7 };
    content.SetEntry(300, a).unwrap();
    content.SetEntry(301, b).unwrap();
    assert_eq!(content.GetEntry(300), a);
    assert_eq!(content.GetEntry(301), b);
    // Overwriting an entry keeps its neighbours.
    content.SetEntry(300, b).unwrap();
    assert_eq!(content.GetEntry(300), b);
    assert_eq!(content.GetEntry(301), b);
    // An entry of a page never written is unmapped; one of a freshly allocated page holds the
    // fill pattern.
    assert_eq!(content.GetEntry(0), UnmapVsa());
    assert_eq!(content.GetEntry(302), VirtualBlkAddr { stripe_id: 0x0F0F_0F0F, offset: 0x0F0F_0F0F_0F0F_0F0F });
    // Writing an entry that held the fill pattern does not count a used block.
    assert_eq!(content.GetNumUsedBlks(), 0);
}

#[test]
fn vsamap_counts_overwritten_unmapped_entries() {
    let addr_info = vsa_addr_info();
    let mut content = VSAMapContent::new(0, &addr_info);
    content.InMemoryInit(0, 128 * 1000, 4032).unwrap();
    content.SetEntry(5, UnmapVsa()).unwrap();
    assert_eq!(content.GetNumUsedBlks(), 0);
    content.SetEntry(5, VirtualBlkAddr { stripe_id: 4, offset: 4 }).unwrap();
    assert_eq!(content.GetNumUsedBlks(), 1);
}

fn manager_addr_info() -> MapperAddressInfo {
    MapperAddressInfo {
        max_vsid: 1024,
        blks_per_stripe: 256,
        num_wb_stripes: 2048,
        mpage_size: 4032,
        array_id: 0,
    }
}

#[test]
fn test_simple_use() {
    let mut vsamap_manager = VSAMapManager::new(manager_addr_info());

    let volume_id: i32 = 10;
    let volume_size_byte = 4 * 1024 * 1024;
    let create_result = vsamap_manager.CreateVsaMapContent(None, volume_id, volume_size_byte, false);
    assert_eq!(create_result.is_ok(), true);

    vsamap_manager.EnableVsaMapAccess(volume_id);

    let start_rba = 0;
    let get_result = vsamap_manager.GetVSAs(volume_id, start_rba, 10);
    assert_eq!(get_result.is_ok(), true);
    let vsa_array = get_result.unwrap();
    for blk_idx in 0..10 {
        assert_eq!(vsa_array[blk_idx as usize], UnmapVsa());
    }

    let virtual_blks = VirtualBlks {
        start_vsa: VirtualBlkAddr { stripe_id: 0, offset: 0 },
        num_blks: 10,
    };
    let set_result = vsamap_manager.SetVSAs(volume_id, start_rba, virtual_blks);
    assert_eq!(set_result.is_ok(), true);

    let get_result = vsamap_manager.GetVSAs(volume_id, start_rba, 10);
    assert_eq!(get_result.is_ok(), true);

    let vsa_array = get_result.unwrap();
    for blk_idx in 0..10 {
        assert_eq!(vsa_array[blk_idx as usize].stripe_id, virtual_blks.start_vsa.stripe_id);
        assert_eq!(vsa_array[blk_idx as usize].offset, blk_idx);
    }
}

#[test]
fn test_inaccessible_map() {
    let mut vsamap_manager = VSAMapManager::new(manager_addr_info());

    let volume_id: i32 = 0;
    let volume_size_byte = 4 * 1024 * 1024;
    let create_result = vsamap_manager.CreateVsaMapContent(None, volume_id, volume_size_byte, false);
    assert_eq!(create_result.is_ok(), true);

    vsamap_manager.DisableVsaMapAccess(volume_id);

    let start_rba = 0;
    let virtual_blks = VirtualBlks {
        start_vsa: VirtualBlkAddr { stripe_id: 0, offset: 0 },
        num_blks: 10,
    };

    assert_eq!(vsamap_manager.SetVSAs(volume_id, start_rba, virtual_blks).is_err(), true);
    assert_eq!(vsamap_manager.GetVSAs(volume_id, start_rba, 10).is_err(), true);
}

#[test]
fn vsamap_manager_access_toggles() {
    let mut manager = VSAMapManager::new(manager_addr_info());
    assert!(!manager.IsVsaMapAccessible(4));
    manager.EnableVsaMapAccess(4);
    assert!(manager.IsVsaMapAccessible(4));
    manager.Init();
    assert!(!manager.IsVsaMapAccessible(4));
}
