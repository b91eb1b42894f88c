//! Log-level selection from the command line's verbosity flags.
//!
//! Verbosity is the count of `-v` flags minus the count of `-q` flags. The
//! root module logs at a level chosen from that count; every other module
//! logs one level less verbosely. Installing the logger and formatting the
//! records is the logging backend's business, outside this crate.

use vstd::prelude::*;

verus! {

/// A log severity threshold, most severe first.
#[derive(Clone, Copy, Debug, PartialEq, Eq, Structural)]
pub enum LogLevel {
    Error,
    Warn,
    Info,
    Debug,
    Trace,
}

/// The net verbosity: `-v` count minus `-q` count, saturated to `i8`.
pub fn verbosity_of(verbose: u8, quiet: u8) -> (r: i8)
    ensures
        verbose as int - quiet >= 127 ==> r == 127i8,
        verbose as int - quiet <= -128 ==> r == -128i8,
        -128 <= verbose as int - quiet <= 127 ==> r as int == verbose as int - quiet,
{
    let diff: i16 = verbose as i16 - quiet as i16;
    if diff > 127 {
        127
    } else if diff < -128 {
        -128
    } else {
        diff as i8
    }
}

/// The level the root module logs at for a given verbosity.
pub open spec fn root_level_spec(verbosity: i8) -> LogLevel {
    if verbosity <= -2 {
        LogLevel::Error
    } else if verbosity == -1 {
        LogLevel::Warn
    } else if verbosity == 0 {
        LogLevel::Info
    } else if verbosity == 1 {
        LogLevel::Debug
    } else {
        LogLevel::Trace
    }
}

/// The level every other module logs at: one step less verbose than the
/// root module's at the same verbosity.
pub open spec fn extra_level_spec(verbosity: i8) -> LogLevel {
    if verbosity <= -1 {
        LogLevel::Error
    } else if verbosity == 0 {
        LogLevel::Warn
    } else if verbosity == 1 {
        LogLevel::Info
    } else if verbosity == 2 {
        LogLevel::Debug
    } else {
        LogLevel::Trace
    }
}

/// Choose the root module's log level from the verbosity.
pub fn root_log_level(verbosity: i8) -> (r: LogLevel)
    ensures
        r == root_level_spec(verbosity),
{
    if verbosity <= -2 {
        LogLevel::Error
    } else if verbosity == -1 {
        LogLevel::Warn
    } else if verbosity == 0 {
        LogLevel::Info
    } else if verbosity == 1 {
        LogLevel::Debug
    } else {
        LogLevel::Trace
    }
}

/// Choose every other module's log level from the verbosity.
pub fn extra_log_level(verbosity: i8) -> (r: LogLevel)
    ensures
        r == extra_level_spec(verbosity),
{
    if verbosity <= -1 {
        LogLevel::Error
    } else if verbosity == 0 {
        LogLevel::Warn
    } else if verbosity == 1 {
        LogLevel::Info
    } else if verbosity == 2 {
        LogLevel::Debug
    } else {
        LogLevel::Trace
    }
}

} // verus!
