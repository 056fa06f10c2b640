//! The verbosity-to-level mapping behind the `-v` flags.  Installing the
//! actual logger is the driver's job.

use vstd::prelude::*;

verus! {

/// The log levels the command line can select, coarsest first.
#[derive(Debug, Clone, Copy, PartialEq, Eq, Structural)]
pub enum LogLevel {
    Warn,
    Info,
    Debug,
    Trace,
}

/// The level selected by a count of `-v` flags: warnings by default, then
/// one more detailed level per flag, saturating at trace.
pub fn log_level_for_verbosity(verbose_count: u8) -> (level: LogLevel)
    ensures
        level == (if verbose_count == 0 {
            LogLevel::Warn
        } else if verbose_count == 1 {
            LogLevel::Info
        } else if verbose_count == 2 {
            LogLevel::Debug
        } else {
            LogLevel::Trace
        }),
{
    if verbose_count == 0 {
        LogLevel::Warn
    } else if verbose_count == 1 {
        LogLevel::Info
    } else if verbose_count == 2 {
        LogLevel::Debug
    } else {
        LogLevel::Trace
    }
}

} // verus!
