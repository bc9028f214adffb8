pub mod codec;
pub mod mbr_info;
pub mod index_map;
pub mod mbr_map_manager;
pub mod mbr_manager;
pub mod abr_manager;
pub mod mbr_text;
pub mod mbr_laws;
