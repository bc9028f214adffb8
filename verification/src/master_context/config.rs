use vstd::prelude::*;

verus! {

/// The system configuration: the transport and the journal settings.
pub struct Config {
    pub transport: Transport,
    pub journal: Journal,
}

/// The settings of the network transport.
pub struct Transport {
    pub trType: String,
    pub bufCacheSize: u32,
    pub numSharedBuf: u32,
    pub ioUnitSize: u32,
}

/// The settings of the journal.
#[derive(PartialEq, Eq, Structural, Debug, Clone, Copy)]
pub struct Journal {
    pub enable: bool,
    pub buffer_size_in_mb: u64,
    pub number_of_log_groups: i32,
    pub debug_mode: bool,
    pub interval_in_msec_for_metric: u64,
    pub enable_vsc: bool,
}

impl Default for Transport {
    fn default() -> (r: Self)
        ensures
            r.trType@ == Seq::<char>::empty(),
            r.bufCacheSize == 0,
            r.numSharedBuf == 0,
            r.ioUnitSize == 0,
    {
        Transport { trType: String::new(), bufCacheSize: 0, numSharedBuf: 0, ioUnitSize: 0 }
    }
}

impl Default for Journal {
    fn default() -> (r: Self)
        ensures
            r == (Journal {
                enable: false,
                buffer_size_in_mb: 0,
                number_of_log_groups: 0,
                debug_mode: false,
                interval_in_msec_for_metric: 0,
                enable_vsc: false,
            }),
    {
        Journal {
            enable: false,
            buffer_size_in_mb: 0,
            number_of_log_groups: 0,
            debug_mode: false,
            interval_in_msec_for_metric: 0,
            enable_vsc: false,
        }
    }
}

impl Default for Config {
    fn default() -> (r: Self)
        ensures
            r.transport.trType@ == Seq::<char>::empty(),
            r.transport.bufCacheSize == 0,
            r.transport.numSharedBuf == 0,
            r.transport.ioUnitSize == 0,
            r.journal == Journal::spec_default(),
    {
        Config { transport: Transport::default(), journal: Journal::default() }
    }
}

impl Journal {
    /// The settings of a journal when nothing is configured: everything off or zero.
    pub open spec fn spec_default() -> Journal {
        Journal {
            enable: false,
            buffer_size_in_mb: 0,
            number_of_log_groups: 0,
            debug_mode: false,
            interval_in_msec_for_metric: 0,
            enable_vsc: false,
        }
    }
}

} // verus!
