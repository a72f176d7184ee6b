//! The configuration the gallery core is given: which directories to track,
//! which port to serve on, and how verbosely the embedded web server logs.
//!
//! Reading and parsing the configuration file is I/O glue outside the
//! library; validated plain values arrive here.

use vstd::prelude::*;

verus! {

// Makes rocket's log-level enum known, variants included, so that the
// conversion below can be stated exactly.
#[verifier::external_type_specification]
pub struct ExLogLevel(rocket::config::LogLevel);

/// The logging verbosity a configuration file may name.
#[derive(Debug, Clone, Copy, PartialEq, Eq, Structural)]
pub enum SerializableLoggingLevel {
    Debug,
    Normal,
    Critical,
    Off,
}

/// The level the embedded web server is told to log at, for each
/// configured level.
pub open spec fn spec_rocket_logging_level(
    l: SerializableLoggingLevel,
) -> rocket::config::LogLevel {
    match l {
        SerializableLoggingLevel::Debug => rocket::config::LogLevel::Debug,
        SerializableLoggingLevel::Normal => rocket::config::LogLevel::Normal,
        SerializableLoggingLevel::Critical => rocket::config::LogLevel::Critical,
        SerializableLoggingLevel::Off => rocket::config::LogLevel::Off,
    }
}

/// The gallery's configuration: the directories whose immediate contents
/// are tracked, the port to serve on, and the logging verbosity.
#[derive(Debug)]
pub struct GalleryConfig {
    pub dirs: Vec<String>,
    pub port: u16,
    pub logging_level: SerializableLoggingLevel,
}

impl GalleryConfig {
    /// The logging level to hand the embedded web server.
    pub fn get_rocket_logging_level(&self) -> (r: rocket::config::LogLevel)
        ensures
            r == spec_rocket_logging_level(self.logging_level),
    {
        match self.logging_level {
            SerializableLoggingLevel::Debug => rocket::config::LogLevel::Debug,
            SerializableLoggingLevel::Normal => rocket::config::LogLevel::Normal,
            SerializableLoggingLevel::Critical => rocket::config::LogLevel::Critical,
            SerializableLoggingLevel::Off => rocket::config::LogLevel::Off,
        }
    }
}

/// The port served on when the configuration names none.
pub fn default_port() -> (r: u16)
    ensures
        r == 8000,
{
    8000
}

/// The logging level used when the configuration names none.
pub fn default_logging_level() -> (r: SerializableLoggingLevel)
    ensures
        r == SerializableLoggingLevel::Normal,
{
    SerializableLoggingLevel::Normal
}

} // verus!
