//! Typed command-line arguments for the Python PDP process.

use crate::text::{decimal, string_views, u64_to_decimal};
use vstd::prelude::*;

verus! {

/// A typed CLI argument for the Python PDP process; only valid options can
/// be expressed, with `Custom` for anything else.
#[derive(Debug, Clone)]
pub enum Arg {
    /// The Python module to run (e.g. `uvicorn`).
    Module(String),
    /// The application to run (e.g. `horizon.main:app`).
    App(String),
    /// Reload mode (`--reload`).
    Reload,
    /// The network port of the PDP server.
    Port(u16),
    /// The network host of the PDP server.
    Host(String),
    /// The logging level of the server.
    LogLevel(LogLevel),
    /// A custom argument for cases the other variants do not cover.
    Custom(String),
}

/// The log levels the PDP server accepts.
#[derive(Debug, Clone, Copy, PartialEq, Eq)]
pub enum LogLevel {
    Debug,
    Info,
    Warning,
    Error,
    Critical,
}

/// The text by which a log level is given on the command line.
pub open spec fn log_level_text(level: LogLevel) -> Seq<char> {
    match level {
        LogLevel::Debug => "debug"@,
        LogLevel::Info => "info"@,
        LogLevel::Warning => "warning"@,
        LogLevel::Error => "error"@,
        LogLevel::Critical => "critical"@,
    }
}

/// The command-line words that an argument stands for.
pub open spec fn arg_words(arg: Arg) -> Seq<Seq<char>> {
    match arg {
        Arg::Module(module) => seq!["-m"@, module@],
        Arg::App(app) => seq![app@],
        Arg::Reload => seq!["--reload"@],
        Arg::Port(port) => seq!["--port"@, decimal(port as nat)],
        Arg::Host(host) => seq!["--host"@, host@],
        Arg::LogLevel(level) => seq!["--log-level"@, log_level_text(level)],
        Arg::Custom(arg) => seq![arg@],
    }
}

impl LogLevel {
    /// The textual form of the level, as its `Display` renders it.
    pub fn to_string(&self) -> (s: String)
        ensures
            s@ == log_level_text(*self),
    {
        match self {
            LogLevel::Debug => "debug".to_owned(),
            LogLevel::Info => "info".to_owned(),
            LogLevel::Warning => "warning".to_owned(),
            LogLevel::Error => "error".to_owned(),
            LogLevel::Critical => "critical".to_owned(),
        }
    }
}

impl Arg {
    /// Converts a typed argument into one or more command-line arguments.
    pub fn to_args(&self) -> (words: Vec<String>)
        ensures
            string_views(words@) == arg_words(*self),
    {
        let mut words: Vec<String> = Vec::new();
        match self {
            Arg::Module(module) => {
                words.push("-m".to_owned());
                words.push(module.clone());
            },
            Arg::App(app) => {
                words.push(app.clone());
            },
            Arg::Reload => {
                words.push("--reload".to_owned());
            },
            Arg::Port(port) => {
                words.push("--port".to_owned());
                words.push(u64_to_decimal(*port as u64));
            },
            Arg::Host(host) => {
                words.push("--host".to_owned());
                words.push(host.clone());
            },
            Arg::LogLevel(level) => {
                words.push("--log-level".to_owned());
                words.push(level.to_string());
            },
            Arg::Custom(arg) => {
                words.push(arg.clone());
            },
        }
        assert(string_views(words@) =~= arg_words(*self));
        words
    }
}

} // verus!
