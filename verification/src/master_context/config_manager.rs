use vstd::prelude::*;
use crate::master_context::config::{Config, Journal};

verus! {

/// Holds the system configuration and answers questions about it.
pub struct ConfigManager {
    config: Config,
}

impl Default for ConfigManager {
    fn default() -> (r: Self)
        ensures
            r.transport_type() == Seq::<char>::empty(),
            r.transport_numbers() == (0u32, 0u32, 0u32),
            r.journal() == Journal::spec_default(),
    {
        ConfigManager { config: Config::default() }
    }
}

impl ConfigManager {
    /// The transport type.
    pub closed spec fn transport_type(&self) -> Seq<char> {
        self.config.transport.trType@
    }

    /// The buffer cache size, the number of shared buffers and the I/O unit size of the
    /// transport.
    pub closed spec fn transport_numbers(&self) -> (u32, u32, u32) {
        (self.config.transport.bufCacheSize, self.config.transport.numSharedBuf, self.config.transport.ioUnitSize)
    }

    /// The journal settings.
    pub closed spec fn journal(&self) -> Journal {
        self.config.journal
    }

    /// A manager of `config`, the configuration read from a file.
    pub fn new(config: Config) -> (r: ConfigManager)
        ensures
            r.transport_type() == config.transport.trType@,
            r.transport_numbers() == (config.transport.bufCacheSize, config.transport.numSharedBuf, config.transport.ioUnitSize),
            r.journal() == config.journal,
    {
        ConfigManager { config }
    }

    /// The transport type.
    pub fn trType(&self) -> (r: String)
        ensures
            r@ == self.transport_type(),
    {
        self.config.transport.trType.clone()
    }

    /// The buffer cache size of the transport.
    pub fn bufCacheSize(&self) -> (r: u32)
        ensures
            r == self.transport_numbers().0,
    {
        self.config.transport.bufCacheSize
    }

    /// The number of shared buffers of the transport.
    pub fn numSharedBuf(&self) -> (r: u32)
        ensures
            r == self.transport_numbers().1,
    {
        self.config.transport.numSharedBuf
    }

    /// The I/O unit size of the transport.
    pub fn ioUnitSize(&self) -> (r: u32)
        ensures
            r == self.transport_numbers().2,
    {
        self.config.transport.ioUnitSize
    }

    /// The journal settings.
    pub fn journalConfig(&self) -> (r: Journal)
        ensures
            r == self.journal(),
    {
        self.config.journal
    }
}

} // verus!
