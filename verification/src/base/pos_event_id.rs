use vstd::prelude::*;

verus! {

/// Event identifiers that operations report on success or failure.
#[derive(PartialEq, Eq, Structural, Debug, Clone, Copy)]
pub enum PosEventId {
    SUCCESS,
    ERROR,
    POS_TRACE_INIT_FAIL,
    POS_TRACE_MBR_LOADED,
    MBR_ABR_NOT_FOUND,
    MBR_ABR_ALREADY_EXIST,
    MBR_DATA_NOT_FOUND,
    MBR_DEBUG_MSG,
    MBR_DEVICE_ALREADY_IN_ARRAY,
    MBR_DEVICE_NOT_FOUND,
    MBR_MAX_ARRAY_CNT_EXCEED,
    MBR_READ_DONE,
    MBR_WRITE_ERROR,
    MBR_WRONG_ARRAY_INDEX_MAP,
    MBR_WRONG_ARRAY_VALID_FLAG,
    MBR_WRONG_ARRAY_NAME,
    STRIPEMAP_SET_FAILURE,
    VSAMAP_SET_FAILURE,
    VSAMAP_NOT_ACCESSIBLE,
    MAPPER_FAILED,
    NEED_TO_INITIAL_STORE,
    WRHDLR_FAIL_BY_SYSTEM_STOP,
    WRHDLR_FAIL_TO_UNLOCK,
    WRITE_FOR_PARITY_FAILED,
    BLKHDLR_WRONG_IO_DIRECTION,
    SCHEDAPI_NULL_COMMAND,
    SCHEDAPI_SUBMISSION_FAIL,
    SCHEDAPI_WRONG_BUFFER,
    UBIO_WITHOUT_UBLOCKDEV,
    AIO_FLUSH_END,
}

} // verus!
