use zenoh_sandbox::ts::log::LogEntryLevel;

#[test]
fn level_from_number() {
    assert_eq!(LogEntryLevel::try_from(0u8), Ok(LogEntryLevel::TRACE));
    assert_eq!(LogEntryLevel::try_from(1u8), Ok(LogEntryLevel::DEBUG));
    assert_eq!(LogEntryLevel::try_from(2u8), Ok(LogEntryLevel::INFO));
    assert_eq!(LogEntryLevel::try_from(3u8), Ok(LogEntryLevel::WARN));
    assert_eq!(LogEntryLevel::try_from(4u8), Ok(LogEntryLevel::ERROR));
}

#[test]
fn level_from_number_out_of_range() {
    assert_eq!(
        LogEntryLevel::try_from(5u8),
        Err("Invalid LogEntryLevel: 5".to_string())
    );
    assert_eq!(
        LogEntryLevel::try_from(255u8),
        Err("Invalid LogEntryLevel: 255".to_string())
    );
}

#[test]
fn level_to_number() {
    assert_eq!(u8::from(LogEntryLevel::TRACE), 0);
    assert_eq!(u8::from(LogEntryLevel::DEBUG), 1);
    assert_eq!(u8::from(LogEntryLevel::INFO), 2);
    assert_eq!(u8::from(LogEntryLevel::WARN), 3);
    assert_eq!(u8::from(LogEntryLevel::ERROR), 4);
    assert_eq!(LogEntryLevel::ERROR.severity(), 4);
}

#[test]
fn level_number_round_trip() {
    for n in 0u8..5 {
        let level = LogEntryLevel::try_from(n).unwrap();
        assert_eq!(u8::from(level), n);
    }
}

#[test]
fn level_default_is_info() {
    assert_eq!(LogEntryLevel::default(), LogEntryLevel::INFO);
}

#[test]
fn level_from_text_by_name() {
    assert_eq!(LogEntryLevel::from("trace"), LogEntryLevel::TRACE);
    assert_eq!(LogEntryLevel::from("debug"), LogEntryLevel::DEBUG);
    assert_eq!(LogEntryLevel::from("info"), LogEntryLevel::INFO);
    assert_eq!(LogEntryLevel::from("warn"), LogEntryLevel::WARN);
    assert_eq!(LogEntryLevel::from("error"), LogEntryLevel::ERROR);
    assert_eq!(LogEntryLevel::from("ERROR"), LogEntryLevel::ERROR);
    assert_eq!(LogEntryLevel::from("WaRn"), LogEntryLevel::WARN);
}

#[test]
fn level_from_text_by_number() {
    assert_eq!(LogEntryLevel::from("1"), LogEntryLevel::ERROR);
    assert_eq!(LogEntryLevel::from("2"), LogEntryLevel::WARN);
    assert_eq!(LogEntryLevel::from("3"), LogEntryLevel::INFO);
    assert_eq!(LogEntryLevel::from("4"), LogEntryLevel::DEBUG);
    assert_eq!(LogEntryLevel::from("5"), LogEntryLevel::TRACE);
    assert_eq!(LogEntryLevel::from("+001"), LogEntryLevel::ERROR);
    assert_eq!(LogEntryLevel::from("05"), LogEntryLevel::TRACE);
}

#[test]
fn level_from_text_falls_back_to_info() {
    assert_eq!(LogEntryLevel::from("0"), LogEntryLevel::INFO);
    assert_eq!(LogEntryLevel::from("6"), LogEntryLevel::INFO);
    assert_eq!(LogEntryLevel::from("-1"), LogEntryLevel::INFO);
    assert_eq!(LogEntryLevel::from("+"), LogEntryLevel::INFO);
    assert_eq!(LogEntryLevel::from(""), LogEntryLevel::INFO);
    assert_eq!(LogEntryLevel::from(" warn"), LogEntryLevel::INFO);
    assert_eq!(LogEntryLevel::from("warning"), LogEntryLevel::INFO);
    assert_eq!(LogEntryLevel::from("nonsense"), LogEntryLevel::INFO);
}

#[test]
fn level_order_is_severity() {
    assert!(LogEntryLevel::TRACE < LogEntryLevel::DEBUG);
    assert!(LogEntryLevel::DEBUG < LogEntryLevel::INFO);
    assert!(LogEntryLevel::INFO < LogEntryLevel::WARN);
    assert!(LogEntryLevel::WARN < LogEntryLevel::ERROR);
    assert!(LogEntryLevel::ERROR >= LogEntryLevel::ERROR);
    assert_eq!(
        LogEntryLevel::WARN.partial_cmp(&LogEntryLevel::INFO),
        Some(std::cmp::Ordering::Greater)
    );
    assert_eq!(
        LogEntryLevel::WARN.cmp(&LogEntryLevel::INFO),
        std::cmp::Ordering::Greater
    );
    assert_eq!(LogEntryLevel::WARN.max(LogEntryLevel::ERROR), LogEntryLevel::ERROR);
}

#[test]
fn level_at_least() {
    assert!(LogEntryLevel::ERROR.at_least(LogEntryLevel::WARN));
    assert!(LogEntryLevel::WARN.at_least(LogEntryLevel::WARN));
    assert!(!LogEntryLevel::INFO.at_least(LogEntryLevel::WARN));
    assert!(LogEntryLevel::TRACE.at_least(LogEntryLevel::TRACE));
}

#[test]
fn level_names() {
    assert_eq!(LogEntryLevel::TRACE.as_str(), "TRACE");
    assert_eq!(LogEntryLevel::ERROR.as_str(), "ERROR");
    assert_eq!(LogEntryLevel::from_name("WARN"), Some(LogEntryLevel::WARN));
    assert_eq!(LogEntryLevel::from_name("warn"), None);
    for n in 0u8..5 {
        let level = LogEntryLevel::try_from(n).unwrap();
        assert_eq!(LogEntryLevel::from_name(level.as_str()), Some(level));
    }
}
