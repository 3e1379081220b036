use axion_core::ipc::bridge::{check_outbound, inbound_accepted, MAX_MESSAGE_BYTES};
use axion_core::ipc::error::IpcError;

#[test]
fn oversized_inbound_message_is_silently_dropped() {
    let oversized = "x".repeat(MAX_MESSAGE_BYTES + 1);
    assert!(!inbound_accepted(&oversized));
    let exact = "x".repeat(MAX_MESSAGE_BYTES);
    assert!(inbound_accepted(&exact));
    assert!(inbound_accepted("hello from js"));
}

#[test]
fn oversized_outbound_message_returns_error() {
    let oversized = "x".repeat(MAX_MESSAGE_BYTES + 1);
    let result = check_outbound(&oversized);
    assert!(
        matches!(result, Err(IpcError::MessageTooLarge { .. })),
        "send_to_js must reject oversized messages"
    );
    assert_eq!(
        result.unwrap_err(),
        IpcError::MessageTooLarge { actual: MAX_MESSAGE_BYTES + 1, limit: MAX_MESSAGE_BYTES }
    );
    assert!(check_outbound("hello from rust").is_ok());
}

#[test]
fn limit_counts_utf8_bytes() {
    // Each 'é' is two bytes in UTF-8.
    let half = "é".repeat(MAX_MESSAGE_BYTES / 2);
    assert!(inbound_accepted(&half));
    let over = format!("{half}x");
    assert!(!inbound_accepted(&over));
}

#[test]
fn ipc_error_messages() {
    let e = IpcError::MessageTooLarge { actual: 1048577, limit: 1048576 };
    assert_eq!(e.message(), "message size 1048577 bytes exceeds the 1048576 byte limit");
    let e = IpcError::SendFailed("boom".to_string());
    assert_eq!(e.message(), "failed to send message to JavaScript: boom");
    assert_eq!(MAX_MESSAGE_BYTES, 1024 * 1024);
}
