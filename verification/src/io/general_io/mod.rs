pub mod io_recovery_event;
pub mod io_recovery_event_factory;
pub mod io_submit_handler;
pub mod rba_state_manager;
pub mod translator;
