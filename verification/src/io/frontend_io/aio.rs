use vstd::prelude::*;
use crate::base::memory::{ChangeByteToSector, SECTOR_SIZE};
use crate::base::pos_event_id::PosEventId;
use crate::bio::pos_io::pos_io;
use crate::bio::ubio::UbioDir;
use crate::bio::volume_io::VolumeIo;
use crate::event_scheduler::callback::Callback;
use crate::io::frontend_io::read_submission::ReadSubmission;
use crate::io::frontend_io::write_submission::{WriteSubmission, write_submission_fits};
use crate::io_scheduler::io_dispatcher;

verus! {

/// The event that carries a submitted volume I/O to the event scheduler.
pub enum SubmissionEvent {
    Write(WriteSubmission),
    Read(ReadSubmission),
}

/// The front door of block I/O: turns requests into volume I/Os and hands them on.
pub struct AIO;

/// The direction a request type stands for: reads and writes only.
pub open spec fn dir_of_io_type(io_type: i32) -> Option<UbioDir> {
    if io_type == 0 {
        Some(UbioDir::Read)
    } else if io_type == 1 {
        Some(UbioDir::Write)
    } else {
        None
    }
}

impl AIO {
    /// The event that runs `volumeIo`: a write submission for a write, a read submission for a
    /// read. The caller sends it to the event scheduler.
    pub fn SubmitAsyncIO(&self, volumeIo: VolumeIo) -> (r: SubmissionEvent)
        requires
            volumeIo.dir == UbioDir::Write ==> write_submission_fits(volumeIo),
        ensures
            volumeIo.dir == UbioDir::Write <==> r is Write,
            r matches SubmissionEvent::Write(w) ==> w.io_sector_rba() == volumeIo.sector_rba && w.io_buffer() == volumeIo.buffer@,
            r matches SubmissionEvent::Read(rs) ==> rs.io_sector_rba() == volumeIo.sector_rba && rs.io_buffer() == volumeIo.buffer@,
    {
        match volumeIo.dir {
            UbioDir::Write => SubmissionEvent::Write(WriteSubmission::new(volumeIo)),
            UbioDir::Read => SubmissionEvent::Read(ReadSubmission::new(volumeIo)),
        }
    }

    /// Submits an admin command; none is handled yet.
    pub fn SubmitAsyncAdmin(&self, io: pos_io) {
    }

    /// Submits a flush; none is handled yet.
    pub fn SubmitFlush(&self, posIo: pos_io) {
    }

    /// The volume I/O for request `posIo`: its offset and length in whole sectors, its
    /// direction, no buffer, and a completion that answers the request.
    /// `BLKHDLR_WRONG_IO_DIRECTION` for a request that is neither a read nor a write.
    pub fn CreateVolumeIo(&self, posIo: pos_io) -> (r: Result<VolumeIo, PosEventId>)
        ensures
            dir_of_io_type(posIo.ioType) is None <==> r == Err::<VolumeIo, PosEventId>(PosEventId::BLKHDLR_WRONG_IO_DIRECTION),
            dir_of_io_type(posIo.ioType) is Some <==> r is Ok,
            r matches Ok(v) ==> {
                &&& Some(v.dir) == dir_of_io_type(posIo.ioType)
                &&& v.array_id == posIo.array_id
                &&& v.vol_id == Some(posIo.volume_id)
                &&& v.sector_rba == Some((posIo.offset / SECTOR_SIZE) as u64)
                &&& v.sector_size == posIo.length / SECTOR_SIZE
                &&& v.buffer@ == Seq::<u8>::empty()
                &&& v.callback matches Some(Callback::Aio(c)) && c.request() == posIo && c.errors() == 0
            },
    {
        self._CreateVolumeIo(posIo)
    }

    /// Completes the I/Os of the devices this thread serves.
    pub fn CompleteIOs(&self) {
        io_dispatcher::CompleteForThreadLocalDeviceList();
    }

    fn _CreateVolumeIo(&self, posIo: pos_io) -> (r: Result<VolumeIo, PosEventId>)
        ensures
            dir_of_io_type(posIo.ioType) is None <==> r == Err::<VolumeIo, PosEventId>(PosEventId::BLKHDLR_WRONG_IO_DIRECTION),
            dir_of_io_type(posIo.ioType) is Some <==> r is Ok,
            r matches Ok(v) ==> {
                &&& Some(v.dir) == dir_of_io_type(posIo.ioType)
                &&& v.array_id == posIo.array_id
                &&& v.vol_id == Some(posIo.volume_id)
                &&& v.sector_rba == Some((posIo.offset / SECTOR_SIZE) as u64)
                &&& v.sector_size == posIo.length / SECTOR_SIZE
                &&& v.buffer@ == Seq::<u8>::empty()
                &&& v.callback matches Some(Callback::Aio(c)) && c.request() == posIo && c.errors() == 0
            },
    {
        let sector_size = ChangeByteToSector(posIo.length);
        let array_id = posIo.array_id;
        let volume_id = posIo.volume_id;
        let volume_io_dir = match posIo.ioType {
            0 => UbioDir::Read,
            1 => UbioDir::Write,
            _ => {
                return Err(PosEventId::BLKHDLR_WRONG_IO_DIRECTION);
            },
        };
        let sector_rba = ChangeByteToSector(posIo.offset);
        let aioCompletion = AioCompletion::new(posIo).to_callback();
        let v = VolumeIo::new(array_id, volume_id, sector_rba, sector_size, volume_io_dir, Vec::new(), aioCompletion);
        Ok(v)
    }
}

/// Answers a request when its volume I/O is done.
pub struct AioCompletion {
    posIo: pos_io,
    errorCount: u32,
}

impl AioCompletion {
    /// The request it answers.
    pub closed spec fn request(&self) -> pos_io {
        self.posIo
    }

    /// The number of errors counted.
    pub closed spec fn errors(&self) -> u32 {
        self.errorCount
    }

    /// A completion of request `posIo`, with no error counted.
    pub fn new(posIo: pos_io) -> (r: AioCompletion)
        ensures
            r.request() == posIo,
            r.errors() == 0,
    {
        AioCompletion { posIo, errorCount: 0 }
    }

    /// This completion as a callback.
    pub fn to_callback(self) -> (r: Callback)
        ensures
            r matches Callback::Aio(c) && c == self,
    {
        Callback::Aio(self)
    }
}

} // verus!
