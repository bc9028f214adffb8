pub mod callback;
pub mod io_completer;
