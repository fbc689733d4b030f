use sim2d::debug_logging::{debug_message_level, DebugLogLevel};

#[test]
fn debug_messages_are_logged_by_severity() {
    assert_eq!(debug_message_level(0x1, 5), Some(DebugLogLevel::Trace));
    assert_eq!(debug_message_level(0x10, 5), Some(DebugLogLevel::Trace));
    assert_eq!(debug_message_level(0x100, -5), Some(DebugLogLevel::Warn));
    assert_eq!(debug_message_level(0x1000, 5), Some(DebugLogLevel::Error));
    assert_eq!(debug_message_level(0x1100, 5), Some(DebugLogLevel::Unrecognized));
    assert_eq!(debug_message_level(0x1000, 0), None);
}
