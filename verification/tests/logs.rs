use zenoh_sandbox::logs::{LogEntry, LogStorage, LOG_PAGE_SIZE, MAX_LOG_ENTRIES};
use zenoh_sandbox::ts::log::LogEntryLevel;

fn entry(level: LogEntryLevel, message: &str) -> LogEntry {
    LogEntry {
        timestamp: "2024-05-01T12:00:00Z".to_string(),
        level,
        target: "zenoh::net".to_string(),
        message: message.to_string(),
    }
}

fn messages(page: &[LogEntry]) -> Vec<String> {
    page.iter().map(|e| e.message.clone()).collect()
}

#[test]
fn storage_constants() {
    assert_eq!(LOG_PAGE_SIZE, 100);
    assert_eq!(MAX_LOG_ENTRIES, 10_000);
    assert_eq!(LogStorage::default().limit(), 10_000);
    assert_eq!(LogStorage::new(7).limit(), 7);
}

#[test]
fn unknown_runtime_has_no_logs() {
    let storage = LogStorage::new(10);
    assert_eq!(storage.get_page(3, None, 0), Vec::new());
    assert_eq!(storage.get_page(3, Some(LogEntryLevel::TRACE), 5), Vec::new());
}

#[test]
fn newest_entry_comes_first() {
    let mut storage = LogStorage::new(10);
    storage.add_log(1, entry(LogEntryLevel::INFO, "E1"));
    storage.add_log(1, entry(LogEntryLevel::INFO, "E2"));
    storage.add_log(1, entry(LogEntryLevel::INFO, "E3"));
    assert_eq!(
        storage.get_page(1, None, 0),
        vec![
            entry(LogEntryLevel::INFO, "E3"),
            entry(LogEntryLevel::INFO, "E2"),
            entry(LogEntryLevel::INFO, "E1"),
        ]
    );
}

#[test]
fn runtimes_are_kept_apart() {
    let mut storage = LogStorage::new(10);
    storage.add_log(1, entry(LogEntryLevel::INFO, "a"));
    storage.add_log(2, entry(LogEntryLevel::INFO, "b"));
    storage.add_log(1, entry(LogEntryLevel::INFO, "c"));
    assert_eq!(messages(&storage.get_page(1, None, 0)), vec!["c", "a"]);
    assert_eq!(messages(&storage.get_page(2, None, 0)), vec!["b"]);
}

#[test]
fn oldest_entries_leave_beyond_the_limit() {
    let mut storage = LogStorage::new(3);
    for i in 0..5 {
        storage.add_log(1, entry(LogEntryLevel::INFO, &format!("m{}", i)));
    }
    assert_eq!(messages(&storage.get_page(1, None, 0)), vec!["m4", "m3", "m2"]);
}

#[test]
fn a_store_without_room_keeps_nothing() {
    let mut storage = LogStorage::new(0);
    storage.add_log(1, entry(LogEntryLevel::ERROR, "lost"));
    assert_eq!(storage.get_page(1, None, 0), Vec::new());
}

#[test]
fn pages_hold_a_hundred_entries() {
    let mut storage = LogStorage::new(1000);
    for i in 0..250 {
        storage.add_log(9, entry(LogEntryLevel::INFO, &format!("m{}", i)));
    }
    let first = storage.get_page(9, None, 0);
    assert_eq!(first.len(), 100);
    assert_eq!(first[0].message, "m249");
    assert_eq!(first[99].message, "m150");
    let second = storage.get_page(9, None, 1);
    assert_eq!(second.len(), 100);
    assert_eq!(second[0].message, "m149");
    assert_eq!(second[99].message, "m50");
    let third = storage.get_page(9, None, 2);
    assert_eq!(third.len(), 50);
    assert_eq!(third[0].message, "m49");
    assert_eq!(third[49].message, "m0");
    assert_eq!(storage.get_page(9, None, 3), Vec::new());
    assert_eq!(storage.get_page(9, None, usize::MAX), Vec::new());
    assert_eq!(storage.get_page(9, None, usize::MAX / 100 + 1), Vec::new());
}

#[test]
fn a_full_last_page_is_followed_by_an_empty_one() {
    let mut storage = LogStorage::new(1000);
    for i in 0..200 {
        storage.add_log(9, entry(LogEntryLevel::INFO, &format!("m{}", i)));
    }
    assert_eq!(storage.get_page(9, None, 1).len(), 100);
    assert_eq!(storage.get_page(9, None, 2), Vec::new());
}

#[test]
fn filter_keeps_what_is_at_least_as_serious() {
    let mut storage = LogStorage::new(100);
    storage.add_log(1, entry(LogEntryLevel::TRACE, "t"));
    storage.add_log(1, entry(LogEntryLevel::DEBUG, "d"));
    storage.add_log(1, entry(LogEntryLevel::INFO, "i"));
    storage.add_log(1, entry(LogEntryLevel::WARN, "w"));
    storage.add_log(1, entry(LogEntryLevel::ERROR, "e"));
    storage.add_log(1, entry(LogEntryLevel::INFO, "i2"));
    storage.add_log(1, entry(LogEntryLevel::WARN, "w2"));
    let warn = storage.get_page(1, Some(LogEntryLevel::WARN), 0);
    assert_eq!(messages(&warn), vec!["w2", "e", "w"]);
    for e in &warn {
        assert!(e.level >= LogEntryLevel::WARN);
        assert!(e.level != LogEntryLevel::TRACE);
        assert!(e.level != LogEntryLevel::DEBUG);
        assert!(e.level != LogEntryLevel::INFO);
    }
    assert_eq!(
        messages(&storage.get_page(1, Some(LogEntryLevel::ERROR), 0)),
        vec!["e"]
    );
    assert_eq!(
        messages(&storage.get_page(1, Some(LogEntryLevel::INFO), 0)),
        vec!["w2", "i2", "e", "w", "i"]
    );
    assert_eq!(storage.get_page(1, Some(LogEntryLevel::TRACE), 0).len(), 7);
    assert_eq!(storage.get_page(1, None, 0).len(), 7);
}

#[test]
fn pages_count_filtered_entries() {
    let mut storage = LogStorage::new(1000);
    for i in 0..300 {
        let level = if i % 2 == 0 {
            LogEntryLevel::ERROR
        } else {
            LogEntryLevel::DEBUG
        };
        storage.add_log(4, entry(level, &format!("m{}", i)));
    }
    let first = storage.get_page(4, Some(LogEntryLevel::WARN), 0);
    assert_eq!(first.len(), 100);
    assert_eq!(first[0].message, "m298");
    assert_eq!(first[99].message, "m100");
    let second = storage.get_page(4, Some(LogEntryLevel::WARN), 1);
    assert_eq!(second.len(), 50);
    assert_eq!(second[0].message, "m98");
    assert_eq!(second[49].message, "m0");
}

#[test]
fn cleared_logs_are_gone() {
    let mut storage = LogStorage::new(10);
    storage.add_log(1, entry(LogEntryLevel::INFO, "a"));
    storage.add_log(2, entry(LogEntryLevel::INFO, "b"));
    storage.clear_logs(1);
    assert_eq!(storage.get_page(1, None, 0), Vec::new());
    assert_eq!(messages(&storage.get_page(2, None, 0)), vec!["b"]);
    storage.clear_logs(1);
    storage.clear_logs(77);
    assert_eq!(messages(&storage.get_page(2, None, 0)), vec!["b"]);
}

#[test]
fn entry_keeps_its_timestamp_as_written() {
    let e = LogEntry::at(
        "2024-05-01T12:00:00.123456789Z".to_string(),
        LogEntryLevel::WARN,
        "t",
        "m".to_string(),
    );
    assert_eq!(e.timestamp, "2024-05-01T12:00:00.123456789Z");
    assert_eq!(e.level, LogEntryLevel::WARN);
    assert_eq!(e.target, "t");
    assert_eq!(e.message, "m");
    assert_eq!(e.clone(), e);
}

#[test]
fn entry_of_now_carries_a_timestamp() {
    let e = LogEntry::now(LogEntryLevel::ERROR, "zenoh_runtime", "gone".to_string());
    assert_eq!(e.level, LogEntryLevel::ERROR);
    assert_eq!(e.target, "zenoh_runtime");
    assert_eq!(e.message, "gone");
    assert!(e.timestamp.ends_with('Z'));
    assert!(LogEntry::from_json(&e.to_json()).is_some());
}
