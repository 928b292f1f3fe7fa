//! Routing validation-layer messages to log levels.

use vstd::prelude::*;

verus! {

/// `VK_DEBUG_UTILS_MESSAGE_SEVERITY_INFO_BIT_EXT`.
pub const SEVERITY_INFO: u32 = 0x10;

/// `VK_DEBUG_UTILS_MESSAGE_SEVERITY_WARNING_BIT_EXT`.
pub const SEVERITY_WARNING: u32 = 0x100;

/// `VK_DEBUG_UTILS_MESSAGE_SEVERITY_ERROR_BIT_EXT`.
pub const SEVERITY_ERROR: u32 = 0x1000;

/// The log level a message is written at.
#[derive(Clone, Copy, Debug, PartialEq, Eq, Structural)]
pub enum LogLevel {
    Error,
    Warn,
    Debug,
    Trace,
}

/// How serious a log level is: higher is more serious.
pub open spec fn level_rank(level: LogLevel) -> int {
    match level {
        LogLevel::Error => 3,
        LogLevel::Warn => 2,
        LogLevel::Debug => 1,
        LogLevel::Trace => 0,
    }
}

/// The log level for a message whose severity flags have these bits:
/// error and above to error, warning and above to warn, info and above to
/// debug, everything else to trace.
pub open spec fn message_level(severity: u32) -> LogLevel {
    if severity >= SEVERITY_ERROR {
        LogLevel::Error
    } else if severity >= SEVERITY_WARNING {
        LogLevel::Warn
    } else if severity >= SEVERITY_INFO {
        LogLevel::Debug
    } else {
        LogLevel::Trace
    }
}

/// Chooses the log level for a validation-layer message of this severity.
pub fn debug_message_level(severity: u32) -> (r: LogLevel)
    ensures
        r == message_level(severity),
{
    if severity >= SEVERITY_ERROR {
        LogLevel::Error
    } else if severity >= SEVERITY_WARNING {
        LogLevel::Warn
    } else if severity >= SEVERITY_INFO {
        LogLevel::Debug
    } else {
        LogLevel::Trace
    }
}

} // verus!
