use vstd::prelude::*;
use crate::master_context::config_manager::ConfigManager;

verus! {

/// A request to create a network transport with these settings.
pub struct TransportCreateRequest {
    pub trType: String,
    pub bufCacheSize: u32,
    pub numSharedBuf: u32,
    pub ioUnitSize: u32,
}

/// The settings of the network transport, taken from the configuration.
pub struct TransportConfiguration {
    trType: String,
    bufCacheSize: u32,
    numSharedBuf: u32,
    ioUnitSize: u32,
}

impl TransportConfiguration {
    /// The transport type.
    pub closed spec fn transport_type(&self) -> Seq<char> {
        self.trType@
    }

    /// The buffer cache size, the number of shared buffers and the I/O unit size.
    pub closed spec fn numbers(&self) -> (u32, u32, u32) {
        (self.bufCacheSize, self.numSharedBuf, self.ioUnitSize)
    }

    /// The transport settings of `configManager`'s configuration.
    pub fn new(configManager: &ConfigManager) -> (r: TransportConfiguration)
        ensures
            r.transport_type() == configManager.transport_type(),
            r.numbers() == configManager.transport_numbers(),
    {
        TransportConfiguration {
            trType: configManager.trType(),
            bufCacheSize: configManager.bufCacheSize(),
            numSharedBuf: configManager.numSharedBuf(),
            ioUnitSize: configManager.ioUnitSize(),
        }
    }

    /// The request that creates the transport with these settings, for the RPC client to send.
    pub fn CreateTransport(&self) -> (r: TransportCreateRequest)
        ensures
            r.trType@ == self.transport_type(),
            (r.bufCacheSize, r.numSharedBuf, r.ioUnitSize) == self.numbers(),
    {
        TransportCreateRequest {
            trType: self.trType.clone(),
            bufCacheSize: self.bufCacheSize,
            numSharedBuf: self.numSharedBuf,
            ioUnitSize: self.ioUnitSize,
        }
    }
}

} // verus!
