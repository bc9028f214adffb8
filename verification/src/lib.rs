#![allow(non_snake_case, non_camel_case_types, non_upper_case_globals, unused_variables, unused_imports)]

pub mod base;
pub mod util;
pub mod array;
pub mod mbr;
pub mod mapper;
pub mod metafs;
pub mod bio;
pub mod volume;
pub mod master_context;
pub mod journal_manager;
pub mod metadata;
pub mod network;
pub mod resource_manager;
pub mod spdk_wrapper;
pub mod poseidonos;
pub mod event_scheduler;
pub mod io;
pub mod io_scheduler;
pub mod io_submit_interface;
pub mod allocator;
pub mod qos;
