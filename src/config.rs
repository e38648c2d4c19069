use vstd::prelude::*;

verus! {

/// How much the process reports about its own work.
#[derive(Debug, Clone, Copy, PartialEq, Eq, Structural)]
pub enum LogLevel {
    Error,
    Warn,
    Info,
    Debug,
    Trace,
}

/// Settings fixed for the life of the process.
#[derive(Debug, Clone)]
pub struct Config {
    pub log_level: LogLevel,
    /// Pause between two cycles, in milliseconds.
    pub interval: u64,
    /// Base URL of the Wavelog instance.
    pub wavelog_url: String,
    /// API key of the Wavelog user.
    pub wavelog_key: String,
    /// Name under which the radio appears on Wavelog.
    pub wavelog_radio: String,
    /// Host of the rigctld daemon.
    pub rigctl_host: String,
    /// Port on which rigctld listens.
    pub rigctl_port: u16,
    /// Time allowed for each rigctld answer, in milliseconds.
    pub rigctl_timeout: u64,
    /// Satellite designator; empty when no satellite is worked.
    pub sat: String,
}

} // verus!
