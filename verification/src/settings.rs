//! From what a user asked for to the configuration of a run.

use vstd::prelude::*;
use crate::client::tcp::Config;
use crate::client::tcp::Target;

verus! {

/// The connection count of a run that names none.
pub const DEFAULT_CONNECTIONS: u32 = 100;

/// The timeout, in milliseconds, of a run that names none.
pub const DEFAULT_TIMEOUT: u32 = 250;

/// What a user may say about a run beyond its target. `None` is an option
/// that was not given.
#[derive(Debug, Copy, Clone)]
pub struct Options {
    /// Requests per second; zero asks for no limit.
    pub rate: Option<u32>,
    pub connections: Option<u32>,
    /// Threads; zero leaves the count to the host.
    pub threads: Option<u32>,
    /// Milliseconds.
    pub connect_timeout: Option<u32>,
    /// Milliseconds.
    pub read_timeout: Option<u32>,
    /// Nanoseconds.
    pub duration: Option<u64>,
}

/// How much of the log a user wants to see.
#[derive(Debug, Copy, Clone, PartialEq, Eq, Structural)]
pub enum LogLevel {
    Warn,
    Info,
    Debug,
    Trace,
}

pub open spec fn spec_or(given: Option<u32>, default: u32) -> u32 {
    match given {
        Some(value) => value,
        None => default,
    }
}

/// A rate of zero, like no rate at all, is no limit. Without a thread count
/// the host decides. The other options have fixed defaults.
pub open spec fn spec_settings(target: Target, options: Options) -> Config {
    Config {
        target,
        rate: if spec_or(options.rate, 0) == 0 {
            None
        } else {
            options.rate
        },
        duration: options.duration,
        num_threads: spec_or(options.threads, 0),
        connect_timeout: spec_or(options.connect_timeout, DEFAULT_TIMEOUT),
        read_timeout: spec_or(options.read_timeout, DEFAULT_TIMEOUT),
        connections: spec_or(options.connections, DEFAULT_CONNECTIONS),
    }
}

fn or(given: Option<u32>, default: u32) -> (value: u32)
    ensures
        value == spec_or(given, default),
{
    match given {
        Some(value) => value,
        None => default,
    }
}

/// The configuration for a target and the options given with it. It is
/// always a valid one.
pub fn settings(target: Target, options: Options) -> (config: Config)
    ensures
        config == spec_settings(target, options),
        config.valid(),
{
    let rate = match options.rate {
        Some(0) => None,
        given => given,
    };
    Config {
        target,
        rate,
        duration: options.duration,
        num_threads: or(options.threads, 0),
        connect_timeout: or(options.connect_timeout, DEFAULT_TIMEOUT),
        read_timeout: or(options.read_timeout, DEFAULT_TIMEOUT),
        connections: or(options.connections, DEFAULT_CONNECTIONS),
    }
}

/// One `-v` shows notices, two add debugging output, three trace everything;
/// any other count shows warnings and errors only.
pub fn log_level(verbosity: u64) -> (level: LogLevel)
    ensures
        level == (if verbosity == 1 {
            LogLevel::Info
        } else if verbosity == 2 {
            LogLevel::Debug
        } else if verbosity == 3 {
            LogLevel::Trace
        } else {
            LogLevel::Warn
        }),
{
    match verbosity {
        1 => LogLevel::Info,
        2 => LogLevel::Debug,
        3 => LogLevel::Trace,
        _ => LogLevel::Warn,
    }
}

} // verus!
