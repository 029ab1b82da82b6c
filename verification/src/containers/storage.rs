use vstd::prelude::*;

use crate::time_ext::MyInstant;

verus! {

/// A relogin code waiting to be forgotten, and since when.
#[derive(Clone, Debug, PartialEq, Eq)]
pub struct ClearCodeData {
    pub code: String,
    pub timer: MyInstant,
}

/// The most verbose log level the server records.
#[derive(Copy, Clone, Debug, PartialEq, Eq, Structural)]
pub enum ServerLevelFilter {
    Off,
    Error,
    Warn,
    Info,
    Debug,
    Trace,
}

/// The levels the logger can be limited to, most quiet first (the levels of
/// `log::LevelFilter`).
#[derive(Copy, Clone, Debug, PartialEq, Eq, Structural)]
pub enum LogLevelFilter {
    Off,
    Error,
    Warn,
    Info,
    Debug,
    Trace,
}

impl ServerLevelFilter {
    /// The logger level a setting stands for: each setting its level of the
    /// same name.
    pub fn parse_enum(&self) -> (r: LogLevelFilter)
        ensures
            r == (match *self {
                ServerLevelFilter::Off => LogLevelFilter::Off,
                ServerLevelFilter::Error => LogLevelFilter::Error,
                ServerLevelFilter::Warn => LogLevelFilter::Warn,
                ServerLevelFilter::Info => LogLevelFilter::Info,
                ServerLevelFilter::Debug => LogLevelFilter::Debug,
                ServerLevelFilter::Trace => LogLevelFilter::Trace,
            }),
    {
        match self {
            ServerLevelFilter::Off => LogLevelFilter::Off,
            ServerLevelFilter::Error => LogLevelFilter::Error,
            ServerLevelFilter::Warn => LogLevelFilter::Warn,
            ServerLevelFilter::Info => LogLevelFilter::Info,
            ServerLevelFilter::Debug => LogLevelFilter::Debug,
            ServerLevelFilter::Trace => LogLevelFilter::Trace,
        }
    }
}

/// The server's settings file.
#[derive(Clone, Debug)]
pub struct Config {
    pub listen: String,
    pub tls_listen: String,
    pub server_cert: String,
    pub server_key: String,
    pub ca_root: String,
    pub maxconnections: usize,
    pub database: String,
    pub username: String,
    pub password: String,
    pub host: String,
    pub port: u16,
    pub enable_backtrace: bool,
    pub level_filter: ServerLevelFilter,
}

} // verus!
