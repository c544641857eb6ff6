use impulse::logger::Logger;

#[test]
fn test_logger_creation() {
    let log_path = String::from("/tmp/impulse-test/test.log");

    let logger = Logger::new(log_path.clone());
    assert_eq!(logger.log_path(), log_path);
}

#[test]
fn test_logger_creates_directory() {
    let log_path = String::from("/tmp/impulse-test/logs/test.log");

    let logger = Logger::new(log_path.clone());
    let line = logger.log("2024-01-02 03:04:05", "Test message");

    assert_eq!(logger.directory(), Some(String::from("/tmp/impulse-test/logs")));
    assert_eq!(line, "[2024-01-02 03:04:05] Test message\n");
}

#[test]
fn test_logger_writes_message() {
    let logger = Logger::new(String::from("test.log"));
    let content = logger.log("2024-01-02 03:04:05", "Test message");

    assert!(content.contains("Test message"));
    assert!(content.contains("[20")); // Year prefix
}

#[test]
fn test_logger_appends_messages() {
    let logger = Logger::new(String::from("test.log"));
    let mut content = String::new();
    content.push_str(&logger.log("2024-01-02 03:04:05", "First message"));
    content.push_str(&logger.log("2024-01-02 03:04:06", "Second message"));

    assert!(content.contains("First message"));
    assert!(content.contains("Second message"));
    assert_eq!(
        content,
        "[2024-01-02 03:04:05] First message\n[2024-01-02 03:04:06] Second message\n"
    );
}

#[test]
fn log_file_without_a_directory() {
    assert_eq!(Logger::new(String::from("test.log")).directory(), Some(String::new()));
    assert_eq!(Logger::new(String::from("/")).directory(), None);
    assert_eq!(Logger::new(String::new()).directory(), None);
    assert_eq!(Logger::new(String::from("x")).log("", ""), "[] \n");
}
