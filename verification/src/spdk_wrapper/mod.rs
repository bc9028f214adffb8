pub mod accel_engine_api;
pub mod spdk_clib;
pub mod spdk_caller;
pub mod spdk_env_caller;
