pub mod map;
pub mod map_header;
pub mod map_content;
pub mod mapper_address_info;
pub mod vsamap_content;
pub mod stripemap_content;
pub mod mapper_const;
pub mod vsamap_manager;
pub mod i_reversemap;
pub mod i_stripemap;
