use vstd::prelude::*;

verus! {

/// A log level of the storage framework.
pub type spdk_log_level = i32;

/// Ends the storage framework application; nothing to end without the framework.
pub fn spdk_app_fini() {
}

/// Sets the level of messages the framework logs; nothing to set without the framework.
pub fn spdk_log_set_level(level: spdk_log_level) {
}

/// Sets the level of messages the framework prints; nothing to set without the framework.
pub fn spdk_log_set_print_level(level: spdk_log_level) {
}

/// The number of cores the framework runs on: none without the framework.
pub fn spdk_env_get_core_count() -> (r: u32)
    ensures
        r == 0,
{
    0
}

/// The frequency of the framework's tick counter: zero without the framework.
pub fn spdk_get_ticks_hz() -> (r: u64)
    ensures
        r == 0,
{
    0
}

/// The framework's tick counter: zero without the framework.
pub fn spdk_get_ticks() -> (r: u64)
    ensures
        r == 0,
{
    0
}

/// The first core the framework runs on: core zero without the framework.
pub fn spdk_env_get_first_core() -> (r: u32)
    ensures
        r == 0,
{
    0
}

/// The last core the framework runs on: core zero without the framework.
pub fn spdk_env_get_last_core() -> (r: u32)
    ensures
        r == 0,
{
    0
}

/// The core the caller runs on: core zero without the framework.
pub fn spdk_env_get_current_core() -> (r: u32)
    ensures
        r == 0,
{
    0
}

/// The core after `prev_core`: core zero without the framework.
pub fn spdk_env_get_next_core(prev_core: u32) -> (r: u32)
    ensures
        r == 0,
{
    0
}

} // verus!
