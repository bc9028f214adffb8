pub mod aio;
pub mod block_map_update_request;
pub mod flush_command_manager;
pub mod read_completion_for_partial_write;
pub mod read_submission;
pub mod write_for_parity;
pub mod write_submission;
pub mod unvmf_io_handler;
