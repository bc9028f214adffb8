pub mod mf_property;
pub mod metafs;
pub mod metafs_service;
