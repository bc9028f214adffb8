pub mod memory_manager;
