pub mod nvmf;
pub mod transport_configuration;
