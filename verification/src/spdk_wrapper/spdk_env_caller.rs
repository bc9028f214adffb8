use vstd::prelude::*;
use crate::spdk_wrapper::spdk_clib;

verus! {

/// Calls into the environment layer of the storage framework.
pub struct SpdkEnvCaller;

impl SpdkEnvCaller {
    /// The number of cores the framework runs on.
    pub fn SpdkEnvGetCoreCount(&self) -> (r: u32)
        ensures
            r == 0,
    {
        spdk_clib::spdk_env_get_core_count()
    }

    /// The frequency of the framework's tick counter.
    pub fn SpdkGetTicksHz(&self) -> (r: u64)
        ensures
            r == 0,
    {
        spdk_clib::spdk_get_ticks_hz()
    }

    /// The framework's tick counter.
    pub fn SpdkGetTicks(&self) -> (r: u64)
        ensures
            r == 0,
    {
        spdk_clib::spdk_get_ticks()
    }

    /// The first core the framework runs on.
    pub fn SpdkEnvGetFirstCore(&self) -> (r: u32)
        ensures
            r == 0,
    {
        spdk_clib::spdk_env_get_first_core()
    }

    /// The last core the framework runs on.
    pub fn SpdkEnvGetLastCore(&self) -> (r: u32)
        ensures
            r == 0,
    {
        spdk_clib::spdk_env_get_last_core()
    }

    /// The core the caller runs on.
    pub fn SpdkEnvGetCurrentCore(&self) -> (r: u32)
        ensures
            r == 0,
    {
        spdk_clib::spdk_env_get_current_core()
    }

    /// The core after `core`.
    pub fn SpdkEnvGetNextCore(&self, core: u32) -> (r: u32)
        ensures
            r == 0,
    {
        spdk_clib::spdk_env_get_next_core(core)
    }
}

} // verus!
