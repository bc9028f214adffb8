pub mod memory;
pub mod address_type;
pub mod pos_event_id;
pub mod text;
pub mod array_config;
