pub mod io_dispatcher;
pub mod io_dispatcher_submission;
