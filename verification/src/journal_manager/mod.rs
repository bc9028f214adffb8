pub mod journal_configuration;
pub mod journal_manager;
