//! Start-up options shared by the relay's front ends. Argument parsing and
//! logging setup live outside the library; these types carry the parsed
//! values and decide the logging verbosity.

use vstd::prelude::*;

use crate::config::ConfigError;

verus! {

/// Logging verbosity, from most to least detailed.
#[derive(Clone, Copy, Debug, PartialEq, Eq, Structural)]
pub enum Level {
    Trace,
    Debug,
    Info,
    Warn,
    Error,
}

/// Verbosity switches common to every front end.
#[derive(Clone, Debug, Default)]
pub struct OptsCommon {
    pub verbose: bool,
    pub debug: bool,
    pub trace: bool,
}

impl OptsCommon {
    /// Sanity-checks the common options; every combination of switches is
    /// acceptable, so this always succeeds and changes nothing.
    pub fn finalize(&mut self) -> (r: Result<(), ConfigError>)
        ensures
            r is Ok,
            *final(self) == *old(self),
    {
        Ok(())
    }

    /// The most detailed switch that is set wins; with none set only errors
    /// are logged.
    pub fn get_loglevel(&self) -> (r: Level)
        ensures
            r == self.spec_loglevel(),
    {
        if self.trace {
            Level::Trace
        } else if self.debug {
            Level::Debug
        } else if self.verbose {
            Level::Info
        } else {
            Level::Error
        }
    }

    pub open spec fn spec_loglevel(&self) -> Level {
        if self.trace {
            Level::Trace
        } else if self.debug {
            Level::Debug
        } else if self.verbose {
            Level::Info
        } else {
            Level::Error
        }
    }
}

/// Options of the raw console server: where to listen, which device to own,
/// how to configure it, and whether clients may write to it.
#[derive(Clone, Debug, Default)]
pub struct OptsConsoleServer {
    pub c: OptsCommon,
    pub listen: String,
    pub ser_port: String,
    pub ser_flow: String,
    pub baud: u32,
    pub ser_datab: u32,
    pub ser_parity: String,
    pub ser_stopb: u32,
    pub write: bool,
}

impl OptsConsoleServer {
    /// Sanity-checks the server options; delegates to the common part.
    pub fn finalize(&mut self) -> (r: Result<(), ConfigError>)
        ensures
            r is Ok,
            *final(self) == *old(self),
    {
        self.c.finalize()
    }
}

/// Options of the event-stream front end: where to listen and which raw
/// console server to read from.
#[derive(Clone, Debug, Default)]
pub struct OptsConsoleWeb {
    pub c: OptsCommon,
    pub listen: String,
    pub connect: String,
}

impl OptsConsoleWeb {
    /// Sanity-checks the web options; delegates to the common part.
    pub fn finalize(&mut self) -> (r: Result<(), ConfigError>)
        ensures
            r is Ok,
            *final(self) == *old(self),
    {
        self.c.finalize()
    }
}

/// Options of the single-binary variant of the relay server.
#[derive(Clone, Debug, Default)]
pub struct GlobalServerOptions {
    pub debug: bool,
    pub trace: bool,
    pub listen: String,
    pub serial_port: String,
    pub ser_flow: String,
    pub ser_baud: u32,
    pub ser_datab: u32,
    pub ser_parity: String,
    pub ser_stopb: u32,
    pub write: bool,
}

} // verus!
