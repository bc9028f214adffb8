pub mod config;
pub mod config_manager;
pub mod version_provider;
