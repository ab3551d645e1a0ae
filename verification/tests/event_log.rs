use webrtc_receiver::event_log::{EventLog, LOG_CAPACITY};

fn numbered(count: usize) -> EventLog {
    let mut log = EventLog::new();
    for i in 0..count {
        log.push(format!("entry {}", i));
    }
    log
}

#[test]
fn capacity_is_one_hundred() {
    assert_eq!(LOG_CAPACITY, 100);
}

#[test]
fn new_log_is_empty() {
    let log = EventLog::new();
    assert_eq!(log.len(), 0);
    assert!(log.is_empty());
    assert!(log.poll_log().is_empty());
    assert!(log.get(0).is_none());
}

#[test]
fn entries_keep_insertion_order() {
    let mut log = EventLog::new();
    log.push("first".to_string());
    log.push("second".to_string());
    log.push("third".to_string());
    assert_eq!(log.len(), 3);
    assert!(!log.is_empty());
    assert_eq!(log.poll_log(), vec!["first".to_string(), "second".to_string(), "third".to_string()]);
}

#[test]
fn full_log_keeps_all_hundred() {
    let log = numbered(100);
    assert_eq!(log.len(), 100);
    assert_eq!(log.get(0).map(|s| s.as_str()), Some("entry 0"));
    assert_eq!(log.get(99).map(|s| s.as_str()), Some("entry 99"));
    assert!(log.get(100).is_none());
}

#[test]
fn one_past_capacity_evicts_the_oldest() {
    let log = numbered(101);
    assert_eq!(log.len(), 100);
    assert_eq!(log.get(0).map(|s| s.as_str()), Some("entry 1"));
    assert_eq!(log.get(99).map(|s| s.as_str()), Some("entry 100"));
}

#[test]
fn long_history_leaves_the_newest_hundred_in_order() {
    let log = numbered(257);
    let expected: Vec<String> = (157..257).map(|i| format!("entry {}", i)).collect();
    assert_eq!(log.len(), 100);
    assert_eq!(log.poll_log(), expected);
}

#[test]
fn length_never_exceeds_capacity_while_filling() {
    let mut log = EventLog::new();
    for i in 0..350usize {
        log.push(format!("entry {}", i));
        let expected = if i + 1 < 100 { i + 1 } else { 100 };
        assert_eq!(log.len(), expected);
    }
}

#[test]
fn snapshot_is_a_copy() {
    let mut log = numbered(2);
    let before = log.poll_log();
    log.push("later".to_string());
    assert_eq!(before, vec!["entry 0".to_string(), "entry 1".to_string()]);
    assert_eq!(log.poll_log().len(), 3);
}

#[test]
fn equal_messages_are_kept_apart() {
    let mut log = EventLog::new();
    log.push("same".to_string());
    log.push("same".to_string());
    assert_eq!(log.poll_log(), vec!["same".to_string(), "same".to_string()]);
}

#[test]
fn empty_message_is_an_entry() {
    let mut log = EventLog::new();
    log.push(String::new());
    assert_eq!(log.len(), 1);
    assert_eq!(log.get(0).map(|s| s.as_str()), Some(""));
}
