pub mod meta;
pub mod array_info;
