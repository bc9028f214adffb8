pub mod i_io_submit_handler;
