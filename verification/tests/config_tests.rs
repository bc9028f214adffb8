use poseidonos_rtype::journal_manager::journal_configuration::JournalConfiguration;
use poseidonos_rtype::master_context::config::{Config, Journal, Transport};
use poseidonos_rtype::master_context::config_manager::ConfigManager;

/// The settings the default configuration file holds.
fn default_config() -> Config {
    Config {
        transport: Transport {
            trType: "TCP".to_string(),
            bufCacheSize: 64,
            numSharedBuf: 4096,
            ioUnitSize: 512,
        },
        journal: Journal {
            enable: true,
            buffer_size_in_mb: 0,
            number_of_log_groups: 2,
            debug_mode: false,
            interval_in_msec_for_metric: 1000,
            enable_vsc: true,
        },
    }
}

#[test]
fn test_default_config_read() {
    let config_manager = ConfigManager::new(default_config());
    let config = JournalConfiguration::new(&config_manager);

    assert_eq!(config.IsEnabled(), true);
    assert_eq!(config.IsDebugEnabled(), false);
    assert_eq!(config.IsVscEnabled(), true);
    assert_eq!(config.GetIntervalForMetric(), 1000);
    assert_eq!(config.GetNumLogGroups(), 2);
}

#[test]
fn test_read_default_file() {
    let config_manager = ConfigManager::new(default_config());

    assert_eq!(config_manager.trType(), "TCP".to_string());
    assert_eq!(config_manager.bufCacheSize(), 64);
    assert_eq!(config_manager.numSharedBuf(), 4096);
    assert_eq!(config_manager.ioUnitSize(), 512);
}

#[test]
fn config_manager_default_is_empty() {
    let config_manager = ConfigManager::default();
    assert_eq!(config_manager.trType(), "".to_string());
    assert_eq!(config_manager.bufCacheSize(), 0);
    assert_eq!(config_manager.numSharedBuf(), 0);
    assert_eq!(config_manager.ioUnitSize(), 0);
    assert_eq!(config_manager.journalConfig(), Journal::default());
}
