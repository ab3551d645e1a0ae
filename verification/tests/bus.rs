use webrtc_receiver::bus::{supervise, BusNotification, GraphAction, RuntimeError};

fn error(reason: &str) -> BusNotification {
    BusNotification::Error(RuntimeError { reason: reason.to_string() })
}

#[test]
fn runtime_error_has_its_log_line() {
    assert_eq!(RuntimeError { reason: "lost".to_string() }.message(), "❌ Error: lost");
    assert_eq!(RuntimeError { reason: String::new() }.message(), "❌ Error: ");
}

#[test]
fn end_of_stream_is_logged_and_ends_supervision() {
    let reaction = supervise(&BusNotification::EndOfStream, true);
    assert_eq!(reaction.message.as_deref(), Some("⏹️ EOS"));
    assert_eq!(reaction.action, GraphAction::Leave);
    assert!(reaction.terminate);
}

#[test]
fn end_of_stream_with_invalid_handle_is_not_logged() {
    let reaction = supervise(&BusNotification::EndOfStream, false);
    assert!(reaction.message.is_none());
    assert_eq!(reaction.action, GraphAction::Leave);
    assert!(reaction.terminate);
}

#[test]
fn error_with_valid_handle_forces_a_stop() {
    let reaction = supervise(&error("decoder died"), true);
    assert_eq!(reaction.message.as_deref(), Some("❌ Error: decoder died"));
    assert_eq!(reaction.action, GraphAction::ForceStop);
    assert!(reaction.terminate);
}

#[test]
fn error_with_invalid_handle_skips_the_stop_and_the_line() {
    let reaction = supervise(&error("decoder died"), false);
    assert!(reaction.message.is_none());
    assert_eq!(reaction.action, GraphAction::Leave);
    assert!(reaction.terminate);
}

#[test]
fn latency_request_with_valid_handle_recalculates() {
    let reaction = supervise(&BusNotification::LatencyRequest, true);
    assert!(reaction.message.is_none());
    assert_eq!(reaction.action, GraphAction::RecalculateLatency);
    assert!(!reaction.terminate);
}

#[test]
fn latency_request_with_invalid_handle_is_skipped() {
    let reaction = supervise(&BusNotification::LatencyRequest, false);
    assert!(reaction.message.is_none());
    assert_eq!(reaction.action, GraphAction::Leave);
    assert!(!reaction.terminate);
}

#[test]
fn other_notifications_are_ignored() {
    for valid in [true, false] {
        let reaction = supervise(&BusNotification::Other, valid);
        assert!(reaction.message.is_none());
        assert_eq!(reaction.action, GraphAction::Leave);
        assert!(!reaction.terminate);
    }
}
