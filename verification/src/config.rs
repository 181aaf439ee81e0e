//! Settings of the command line front end.

use vstd::prelude::*;

verus! {

/// How much the front end reports about its own work.
#[derive(Debug, Clone, Copy, PartialEq, Eq, Structural)]
pub enum LogLevel {
    Debug(),
    Info(),
    Warn(),
    Error(),
}

/// The settings of one run.
#[derive(Debug, Clone, Copy, PartialEq, Eq, Structural)]
pub struct Config {
    pub log_level: LogLevel,
}

impl Config {
    /// The default settings: everything is reported.
    pub fn new() -> (config: Config)
        ensures
            config == (Config { log_level: LogLevel::Debug() }),
    {
        Config { log_level: LogLevel::Debug() }
    }
}

} // verus!
