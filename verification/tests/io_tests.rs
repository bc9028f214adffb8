use poseidonos_rtype::array::array_info::{ArrayInfo, PartitionLogicalSize, PartitionType};
use poseidonos_rtype::base::address_type::{StripeAddr, StripeLoc, VirtualBlkAddr, VirtualBlks, UNMAP_STRIPE, UNMAP_OFFSET};
use poseidonos_rtype::base::pos_event_id::PosEventId;
use poseidonos_rtype::bio::pos_io::pos_io;
use poseidonos_rtype::bio::ubio::UbioDir;
use poseidonos_rtype::bio::volume_io::VolumeIo;
use poseidonos_rtype::event_scheduler::callback::Callback;
use poseidonos_rtype::io::frontend_io::aio::{AioCompletion, SubmissionEvent, AIO};
use poseidonos_rtype::io::frontend_io::write_submission::WriteSubmission;
use poseidonos_rtype::io::general_io::rba_state_manager::RBAStateManager;
use poseidonos_rtype::io::general_io::translator::{PhysicalBlkAddr, Translator};
use poseidonos_rtype::mapper::mapper_address_info::MapperAddressInfo;
use poseidonos_rtype::spdk_wrapper::spdk_env_caller::SpdkEnvCaller;
use poseidonos_rtype::util::block_alignment::BlockAlignment;

fn request(io_type: i32, offset: u64, length: u64) -> pos_io {
    pos_io { ioType: io_type, array_id: 2, volume_id: 5, iovcnt: 1, offset, length }
}

#[test]
fn create_volume_io_converts_bytes_to_sectors() {
    let aio = AIO;
    let v = aio.CreateVolumeIo(request(1, 8192, 4096)).unwrap();
    assert_eq!(v.dir, UbioDir::Write);
    assert_eq!(v.sector_rba, Some(16));
    assert_eq!(v.sector_size, 8);
    assert_eq!(v.array_id, 2);
    assert_eq!(v.vol_id, Some(5));
    assert!(matches!(v.callback, Some(Callback::Aio(_))));
    let v = aio.CreateVolumeIo(request(0, 1000, 100)).unwrap();
    assert_eq!(v.dir, UbioDir::Read);
    assert_eq!(v.sector_rba, Some(1));
    assert_eq!(v.sector_size, 0);
}

#[test]
fn create_volume_io_rejects_other_types() {
    let aio = AIO;
    assert!(matches!(aio.CreateVolumeIo(request(2, 0, 512)), Err(PosEventId::BLKHDLR_WRONG_IO_DIRECTION)));
}

fn volume_io(dir: UbioDir, sector_rba: u64, len: usize) -> VolumeIo {
    VolumeIo::new(0, 1, sector_rba, (len / 512) as u64, dir, vec![0u8; len], AioCompletion::new(request(1, 0, 0)).to_callback())
}

#[test]
fn submit_async_io_picks_the_event() {
    let aio = AIO;
    assert!(matches!(aio.SubmitAsyncIO(volume_io(UbioDir::Write, 0, 4096)), SubmissionEvent::Write(_)));
    assert!(matches!(aio.SubmitAsyncIO(volume_io(UbioDir::Read, 0, 4096)), SubmissionEvent::Read(_)));
}

#[test]
fn write_submission_cuts_ranges_at_chunks() {
    // An unaligned write of 8 KiB starting 512 bytes into a block touches 3 blocks.
    let mut w = WriteSubmission::new(volume_io(UbioDir::Write, 1, 8192));
    assert!(!w._HasAllBlocks());
    // 70 blocks from offset 60: 4 up to the chunk end, then 64, then 2.
    w.AddWriteBufferBlks(VirtualBlks { start_vsa: VirtualBlkAddr { stripe_id: 3, offset: 60 }, num_blks: 70 }, 9);
    assert!(w._HasAllBlocks());
    assert!(!w._IsSingleBlockWrite());
    let (tail, stripe) = w._PopTailVsa();
    assert_eq!(tail, VirtualBlkAddr { stripe_id: 3, offset: 129 });
    assert_eq!(stripe, 9);
    let (head, stripe) = w._PopHeadVsa();
    assert_eq!(head, VirtualBlkAddr { stripe_id: 3, offset: 61 });
    assert_eq!(stripe, 9);
}

#[test]
fn block_alignment_of_an_unaligned_range() {
    let a = BlockAlignment::new(512, 8192);
    assert_eq!(a.GetBlockCount(), 3);
    assert!(a.HasHead());
    assert!(a.HasTail());
    assert_eq!(a.GetHeadSize(), 3584);
    assert_eq!(a.GetTailSize(), 512);
    assert_eq!(a.GetHeadPosition(), 512);
    assert_eq!(a.GetHeadBlock(), Ok(0));
    assert_eq!(a.GetTailBlock(), Ok(2));
}

#[test]
fn translator_answers_unmapped() {
    let t = Translator::new(1, 10, 0, true);
    assert_eq!(t.startRba, 10);
    assert!(!t.IsMapped());
    assert_eq!(t.GetLsidEntry(0), StripeAddr { stripe_loc: StripeLoc::IN_USER_AREA, stripe_id: 0 });
    assert_eq!(t.GetPba(), PhysicalBlkAddr { lba: 0, array_dev: None });
    assert!(t.GetPhysicalEntries(&vec![0u8; 16], 1).is_empty());
}

#[test]
fn rba_ownership_is_granted() {
    let m = RBAStateManager::new();
    assert!(matches!(m.BulkAcquireOwnership(1, 0, 8), Ok(true)));
    assert!(m.BulkReleaseOwnership(1, 0, 8).is_ok());
}

#[test]
fn mapper_address_info_from_partitions() {
    let info = ArrayInfo {
        name: "POSArray".to_string(),
        index: 3,
        partition_size_info: vec![
            (PartitionType::WRITE_BUFFER, PartitionLogicalSize { total_stripes: 16, blks_per_stripe: 256 }),
            (PartitionType::USER_DATA, PartitionLogicalSize { total_stripes: 1000, blks_per_stripe: 128 }),
        ],
    };
    let a = MapperAddressInfo::new(&info, 4032);
    assert_eq!(a, MapperAddressInfo { max_vsid: 1000, blks_per_stripe: 128, num_wb_stripes: 16, mpage_size: 4032, array_id: 3 });
}

#[test]
fn spdk_environment_without_framework() {
    let env = SpdkEnvCaller;
    assert_eq!(env.SpdkEnvGetCoreCount(), 0);
    assert_eq!(env.SpdkGetTicksHz(), 0);
    assert_eq!(env.SpdkEnvGetNextCore(3), 0);
}

use poseidonos_rtype::io::frontend_io::unvmf_io_handler::{SubmitAction, UNVMfSubmitHandler};
use poseidonos_rtype::volume::volume_base::VolumeIoType;

#[test]
fn submit_handler_decides() {
    assert!(matches!(UNVMfSubmitHandler(None), SubmitAction::Reject(PosEventId::SCHEDAPI_NULL_COMMAND)));
    let mut r = request(0, 4096, 4096);
    r.iovcnt = 2;
    assert!(matches!(UNVMfSubmitHandler(Some(r)), SubmitAction::Reject(PosEventId::SCHEDAPI_WRONG_BUFFER)));
    assert!(matches!(UNVMfSubmitHandler(Some(request(2, 0, 0))), SubmitAction::Flush(_)));
    assert!(matches!(UNVMfSubmitHandler(Some(request(3, 0, 0))), SubmitAction::Reject(PosEventId::BLKHDLR_WRONG_IO_DIRECTION)));
    assert!(matches!(UNVMfSubmitHandler(Some(request(4, 0, 0))), SubmitAction::Admin(_)));
    assert!(matches!(UNVMfSubmitHandler(Some(request(-1, 0, 0))), SubmitAction::Reject(PosEventId::BLKHDLR_WRONG_IO_DIRECTION)));
    match UNVMfSubmitHandler(Some(request(0, 4096, 8192))) {
        SubmitAction::Submit { volume_io, io_type } => {
            assert_eq!(io_type, VolumeIoType::UserRead);
            assert_eq!(volume_io.sector_rba, Some(8));
            assert_eq!(volume_io.sector_size, 16);
        }
        _ => panic!("a read with one buffer is submitted"),
    }
}

use poseidonos_rtype::io::frontend_io::write_submission::{ExecuteStep, OldBlockRead, WritePlan};
use poseidonos_rtype::allocator::i_block_allocator::IBlockAllocator;
use poseidonos_rtype::base::address_type::StripeId;
use std::cell::{Cell, RefCell};

/// An allocator that answers from a list of replies, then with the unmapped address.
struct ListAllocator {
    replies: RefCell<Vec<(VirtualBlks, StripeId)>>,
    lockable: bool,
    unlockable: bool,
    asked: RefCell<Vec<u32>>,
    unlocked: Cell<bool>,
}

impl ListAllocator {
    fn new(replies: Vec<(VirtualBlks, StripeId)>) -> ListAllocator {
        ListAllocator { replies: RefCell::new(replies), lockable: true, unlockable: true, asked: RefCell::new(vec![]), unlocked: Cell::new(false) }
    }
}

impl IBlockAllocator for ListAllocator {
    fn TryRdLock(&self, _volume_id: u32) -> bool {
        self.lockable
    }
    fn AllocateWriteBufferBlks(&self, _volume_id: u32, num_blks: u32) -> (VirtualBlks, StripeId) {
        self.asked.borrow_mut().push(num_blks);
        let mut replies = self.replies.borrow_mut();
        if replies.is_empty() {
            (VirtualBlks { start_vsa: VirtualBlkAddr { stripe_id: UNMAP_STRIPE, offset: UNMAP_OFFSET }, num_blks: 0 }, 0)
        } else {
            replies.remove(0)
        }
    }
    fn Unlock(&self, _volume_id: u32) -> bool {
        self.unlocked.set(true);
        self.unlockable
    }
}

fn blks(offset: u64, num_blks: u32) -> VirtualBlks {
    VirtualBlks { start_vsa: VirtualBlkAddr { stripe_id: 3, offset }, num_blks }
}

#[test]
fn owned_write_reads_partial_blocks_first() {
    let mut w = WriteSubmission::new(volume_io(UbioDir::Write, 1, 8192));
    assert!(matches!(w._ProcessOwnedWrite(&ListAllocator::new(vec![]), false), WritePlan::Wait));
    match w._ProcessOwnedWrite(&ListAllocator::new(vec![(blks(60, 3), 9)]), false) {
        WritePlan::MultipleBlocks { reads, ranges } => {
            assert_eq!(
                reads,
                vec![
                    OldBlockRead {
                        rba: 0,
                        vsa: VirtualBlkAddr { stripe_id: 3, offset: 61 },
                        user_lsid: 9,
                        is_tail: false,
                        alignment_size: 3584,
                        alignment_offset: 512,
                    },
                    OldBlockRead {
                        rba: 2,
                        vsa: VirtualBlkAddr { stripe_id: 3, offset: 61 },
                        user_lsid: 9,
                        is_tail: true,
                        alignment_size: 512,
                        alignment_offset: 0,
                    },
                ]
            );
            assert_eq!(ranges, vec![(VirtualBlks { start_vsa: VirtualBlkAddr { stripe_id: 3, offset: 60 }, num_blks: 2 }, 9)]);
        }
        _ => panic!("a three-block write goes out range by range"),
    }
}

#[test]
fn aligned_single_block_write() {
    let mut w = WriteSubmission::new(volume_io(UbioDir::Write, 8, 4096));
    let replies = vec![(VirtualBlks { start_vsa: VirtualBlkAddr { stripe_id: 1, offset: 5 }, num_blks: 1 }, 2)];
    match w._ProcessOwnedWrite(&ListAllocator::new(replies), false) {
        WritePlan::SingleBlock { reads, range } => {
            assert!(reads.is_empty());
            assert_eq!(range, (VirtualBlks { start_vsa: VirtualBlkAddr { stripe_id: 1, offset: 5 }, num_blks: 1 }, 2));
        }
        _ => panic!("an aligned one-block write goes out at once"),
    }
}

#[test]
fn write_buffer_replies_decide_the_allocation() {
    let unmapped = VirtualBlks { start_vsa: VirtualBlkAddr { stripe_id: UNMAP_STRIPE, offset: UNMAP_OFFSET }, num_blks: 0 };
    let mut w = WriteSubmission::new(volume_io(UbioDir::Write, 1, 8192));
    assert_eq!(w.OnWriteBufferAllocated(unmapped, 0, true), Err(PosEventId::WRHDLR_FAIL_BY_SYSTEM_STOP));
    assert_eq!(w.OnWriteBufferAllocated(unmapped, 0, false), Ok(false));
    assert!(!w._HasAllBlocks());
    let range = VirtualBlks { start_vsa: VirtualBlkAddr { stripe_id: 4, offset: 62 }, num_blks: 3 };
    assert_eq!(w.OnWriteBufferAllocated(range, 7, false), Ok(true));
    assert!(w._HasAllBlocks());
    // Cut at the chunk end: 62..64, then 64.
    let (tail, stripe) = w._PopTailVsa();
    assert_eq!(tail, VirtualBlkAddr { stripe_id: 4, offset: 64 });
    assert_eq!(stripe, 7);
}

#[test]
fn execute_needs_tokens_then_plans_the_owned_write() {
    let rba_state = RBAStateManager::new();
    let mut w = WriteSubmission::new(volume_io(UbioDir::Write, 1, 8192));
    let allocator = ListAllocator::new(vec![(blks(60, 3), 9)]);
    assert!(matches!(w.Execute(0, &rba_state, &allocator, false), ExecuteStep::NoToken));
    assert!(allocator.asked.borrow().is_empty());
    assert!(matches!(w.Execute(3, &rba_state, &ListAllocator::new(vec![]), false), ExecuteStep::Planned(WritePlan::Wait)));
    match w.Execute(3, &rba_state, &allocator, false) {
        ExecuteStep::Planned(WritePlan::MultipleBlocks { reads, ranges }) => {
            assert_eq!(reads.len(), 2);
            assert_eq!(ranges.len(), 1);
        }
        _ => panic!("an owned write with all its blocks is planned"),
    }
}

#[test]
fn allocation_asks_again_for_the_rest() {
    let mut w = WriteSubmission::new(volume_io(UbioDir::Write, 1, 8192));
    let allocator = ListAllocator::new(vec![(blks(60, 2), 9), (blks(100, 1), 10)]);
    assert_eq!(w._AllocateFreeWriteBuffer(&allocator, false), Ok(()));
    assert_eq!(*allocator.asked.borrow(), vec![3, 1]);
    assert!(allocator.unlocked.get());
    assert!(w._HasAllBlocks());
    let (tail, stripe) = w._PopTailVsa();
    assert_eq!(tail, VirtualBlkAddr { stripe_id: 3, offset: 100 });
    assert_eq!(stripe, 10);
}

#[test]
fn allocation_stops_on_an_exhausted_buffer() {
    let mut w = WriteSubmission::new(volume_io(UbioDir::Write, 1, 8192));
    assert_eq!(w._AllocateFreeWriteBuffer(&ListAllocator::new(vec![]), false), Ok(()));
    assert_eq!(w._AllocateFreeWriteBuffer(&ListAllocator::new(vec![]), true), Err(PosEventId::WRHDLR_FAIL_BY_SYSTEM_STOP));
    let mut stuck_unlock = ListAllocator::new(vec![]);
    stuck_unlock.unlockable = false;
    assert_eq!(w._AllocateFreeWriteBuffer(&stuck_unlock, true), Err(PosEventId::WRHDLR_FAIL_TO_UNLOCK));
    // Without the volume lock nothing is asked for.
    let mut unlockable = ListAllocator::new(vec![(blks(60, 3), 9)]);
    unlockable.lockable = false;
    assert_eq!(w._AllocateFreeWriteBuffer(&unlockable, false), Ok(()));
    assert!(unlockable.asked.borrow().is_empty());
    assert!(!w._HasAllBlocks());
    // A reply of more blocks than asked for is not taken.
    assert_eq!(w._AllocateFreeWriteBuffer(&ListAllocator::new(vec![(blks(60, 4), 9)]), false), Ok(()));
    assert!(!w._HasAllBlocks());
}

#[test]
fn a_write_whose_tail_range_was_dropped_is_stuck() {
    // Head and tail blocks; the head's single-block range goes, and with it the last range.
    let mut w = WriteSubmission::new(volume_io(UbioDir::Write, 1, 8192));
    let allocator = ListAllocator::new(vec![(blks(10, 1), 9), (blks(20, 2), 10)]);
    assert!(matches!(w._ProcessOwnedWrite(&allocator, false), WritePlan::Stuck));
}

#[test]
fn the_request_and_the_replies_a_write_can_take() {
    let mut w = WriteSubmission::new(volume_io(UbioDir::Write, 1, 8192));
    assert_eq!(w.write_buffer_request(), (1, 3));
    let unmapped = VirtualBlks { start_vsa: VirtualBlkAddr { stripe_id: UNMAP_STRIPE, offset: UNMAP_OFFSET }, num_blks: 0 };
    assert!(w.ReplyUsable(&unmapped));
    assert!(w.ReplyUsable(&blks(60, 3)));
    assert!(!w.ReplyUsable(&blks(60, 0)));
    assert!(!w.ReplyUsable(&blks(60, 4)));
    assert!(!w.ReplyUsable(&blks(u64::MAX - 1, 3)));
    w.AddWriteBufferBlks(blks(60, 2), 9);
    assert_eq!(w.write_buffer_request(), (1, 1));
    assert!(!w.ReplyUsable(&blks(70, 2)));
}
