pub mod qos_manager;
