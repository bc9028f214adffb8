pub mod frontend_io;
pub mod general_io;
