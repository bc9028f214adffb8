pub mod ubio;
pub mod pos_io;
pub mod volume_io;
