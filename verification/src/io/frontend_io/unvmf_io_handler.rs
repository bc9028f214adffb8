use vstd::prelude::*;
use crate::event_scheduler::callback::Callback;
use crate::base::pos_event_id::PosEventId;
use crate::bio::pos_io::{pos_io, IO_TYPE_ADMIN, IO_TYPE_FLUSH, IO_TYPE_READ, IO_TYPE_WRITE};
use crate::bio::volume_io::VolumeIo;
use crate::io::frontend_io::aio::{AIO, dir_of_io_type};
use crate::volume::volume_base::VolumeIoType;

verus! {

/// The status every request from the block device layer is answered with: the outcome of a
/// request reaches its submitter through its completion, not through this status.
pub const POS_IO_STATUS_SUCCESS: u32 = 0;

/// What to do with a request from the block device layer.
pub enum SubmitAction {
    /// Fail the request and report `event`.
    Reject(PosEventId),
    /// Hand the request on as an admin command.
    Admin(pos_io),
    /// Hand the request on as a flush.
    Flush(pos_io),
    /// Report that no volume I/O could be made of the request.
    NotCreated(PosEventId),
    /// Count a pending I/O of `io_type` on the request's volume, then submit `volume_io`.
    Submit { volume_io: VolumeIo, io_type: VolumeIoType },
}

/// The action `UNVMfSubmitHandler` takes on request `io` (`None` for a missing request) without
/// making a volume I/O; `None` for a read or write with one buffer, of which it makes one.
pub open spec fn early_action(io: Option<pos_io>) -> Option<SubmitAction> {
    match io {
        None => Some(SubmitAction::Reject(PosEventId::SCHEDAPI_NULL_COMMAND)),
        Some(r) => {
            if r.ioType > IO_TYPE_ADMIN {
                Some(SubmitAction::Admin(r))
            } else if r.ioType == IO_TYPE_READ || r.ioType == IO_TYPE_WRITE {
                if r.iovcnt != 1 {
                    Some(SubmitAction::Reject(PosEventId::SCHEDAPI_WRONG_BUFFER))
                } else {
                    None
                }
            } else if r.ioType == IO_TYPE_FLUSH {
                Some(SubmitAction::Flush(r))
            } else {
                Some(SubmitAction::Reject(PosEventId::BLKHDLR_WRONG_IO_DIRECTION))
            }
        },
    }
}

/// Decides what to do with request `io` from the block device layer (`None` when it is
/// missing): refuse a missing request, one of an unknown type or a read or write that does not
/// have exactly one buffer; hand admin commands and flushes on; turn reads and writes into
/// volume I/Os of the matching kind. Whatever the action, the request is answered with
/// `POS_IO_STATUS_SUCCESS`.
pub fn UNVMfSubmitHandler(io: Option<pos_io>) -> (r: SubmitAction)
    ensures
        early_action(io) matches Some(a) ==> r == a,
        early_action(io) is None ==> r is Submit,
        r matches SubmitAction::Submit { volume_io, io_type } ==> {
            let q = io->0;
            &&& Some(volume_io.dir) == dir_of_io_type(q.ioType)
            &&& volume_io.array_id == q.array_id
            &&& volume_io.vol_id == Some(q.volume_id)
            &&& volume_io.sector_rba == Some((q.offset / 512) as u64)
            &&& volume_io.sector_size == q.length / 512
            &&& volume_io.buffer@ == Seq::<u8>::empty()
            &&& volume_io.callback matches Some(Callback::Aio(c)) && c.request() == q && c.errors() == 0
            &&& io_type == if q.ioType == IO_TYPE_READ { VolumeIoType::UserRead } else { VolumeIoType::UserWrite }
        },
{
    let ioObj = match io {
        None => {
            return SubmitAction::Reject(PosEventId::SCHEDAPI_NULL_COMMAND);
        },
        Some(r) => r,
    };
    let io_type = ioObj.ioType;
    if io_type > IO_TYPE_ADMIN {
        return SubmitAction::Admin(ioObj);
    }
    if io_type == IO_TYPE_READ || io_type == IO_TYPE_WRITE {
        if ioObj.iovcnt != 1 {
            return SubmitAction::Reject(PosEventId::SCHEDAPI_WRONG_BUFFER);
        }
    } else if io_type == IO_TYPE_FLUSH {
        return SubmitAction::Flush(ioObj);
    } else {
        return SubmitAction::Reject(PosEventId::BLKHDLR_WRONG_IO_DIRECTION);
    }
    let vol_io_type = if io_type == IO_TYPE_READ {
        VolumeIoType::UserRead
    } else if io_type == IO_TYPE_WRITE {
        VolumeIoType::UserWrite
    } else {
        VolumeIoType::MaxVolumeIoTypeCnt
    };
    let aio = AIO;
    match aio.CreateVolumeIo(ioObj) {
        Ok(volume_io) => SubmitAction::Submit { volume_io, io_type: vol_io_type },
        Err(e) => SubmitAction::NotCreated(e),
    }
}

} // verus!
