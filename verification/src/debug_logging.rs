use vstd::prelude::*;

verus! {

/// `VK_DEBUG_UTILS_MESSAGE_SEVERITY_VERBOSE_BIT_EXT`.
pub const SEVERITY_VERBOSE: u32 = 0x1;

/// `VK_DEBUG_UTILS_MESSAGE_SEVERITY_INFO_BIT_EXT`.
pub const SEVERITY_INFO: u32 = 0x10;

/// `VK_DEBUG_UTILS_MESSAGE_SEVERITY_WARNING_BIT_EXT`.
pub const SEVERITY_WARNING: u32 = 0x100;

/// `VK_DEBUG_UTILS_MESSAGE_SEVERITY_ERROR_BIT_EXT`.
pub const SEVERITY_ERROR: u32 = 0x1000;

/// How loudly a validation message is logged.
#[derive(Copy, Clone, Debug, PartialEq, Eq, Structural)]
pub enum DebugLogLevel {
    Trace,
    Warn,
    Error,
    /// A severity that is none of the four known ones; logged as a warning
    /// marked as unknown.
    Unrecognized,
}

/// The level at which a validation message is logged: messages numbered 0
/// are dropped; verbose and info messages are traced; warnings and errors
/// keep their level.
pub fn debug_message_level(message_severity: u32, message_id_number: i32) -> (level: Option<
    DebugLogLevel,
>)
    ensures
        message_id_number == 0 ==> level is None,
        message_id_number != 0 ==> level == Some(
            if message_severity == SEVERITY_VERBOSE || message_severity == SEVERITY_INFO {
                DebugLogLevel::Trace
            } else if message_severity == SEVERITY_WARNING {
                DebugLogLevel::Warn
            } else if message_severity == SEVERITY_ERROR {
                DebugLogLevel::Error
            } else {
                DebugLogLevel::Unrecognized
            },
        ),
{
    if message_id_number == 0 {
        return None;
    }
    if message_severity == SEVERITY_VERBOSE || message_severity == SEVERITY_INFO {
        Some(DebugLogLevel::Trace)
    } else if message_severity == SEVERITY_WARNING {
        Some(DebugLogLevel::Warn)
    } else if message_severity == SEVERITY_ERROR {
        Some(DebugLogLevel::Error)
    } else {
        Some(DebugLogLevel::Unrecognized)
    }
}

} // verus!
