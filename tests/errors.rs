use openagent_terminal::error::{RetryConfig, TerminalError};

#[test]
fn test_error_messages() {
    let err = TerminalError::backend_connection(
        "/tmp/test.sock",
        std::io::Error::new(std::io::ErrorKind::NotFound, "not found"),
    );
    assert!(err.to_string().contains("Failed to connect"));
    assert!(err.to_string().contains("/tmp/test.sock"));
}

#[test]
fn test_is_recoverable() {
    let conn_err = TerminalError::backend_connection(
        "/tmp/test.sock",
        std::io::Error::new(std::io::ErrorKind::NotFound, "not found"),
    );
    assert!(conn_err.is_recoverable());
    let config_err = TerminalError::ConfigError("test".to_string());
    assert!(!config_err.is_recoverable());
}

#[test]
fn test_short_message() {
    let err = TerminalError::timeout(30);
    assert_eq!(err.short_message(), "Timeout after 30s");
}

#[test]
fn test_retry_config() {
    let config = RetryConfig::default();
    assert_eq!(config.max_attempts, 3);
    let delay = config.delay_for_attempt(0);
    assert_eq!(delay, 100);
    let delay = config.delay_for_attempt(2);
    assert!(delay > 100);
}

#[test]
fn test_connection_retry_config() {
    let config = RetryConfig::for_connection();
    assert_eq!(config.max_attempts, 5);
    assert_eq!(config.initial_delay_ms, 200);
}

#[test]
fn connection_error_keeps_io_text() {
    let err = TerminalError::backend_connection("/s", std::io::Error::new(std::io::ErrorKind::Other, "refused"));
    assert!(err.to_string().ends_with("Error details: refused"));
    assert!(err.is_connection_error());
    assert_eq!(err.short_message(), "Backend connection failed");
}

#[test]
fn tool_error_names_the_tool() {
    let err = TerminalError::tool_execution("write_file", "denied");
    assert_eq!(err.short_message(), "Tool 'write_file' failed");
    assert!(err.to_string().starts_with("Tool execution failed: write_file\n\nThe tool 'write_file' failed to execute.\nReason: denied"));
    assert!(!err.is_recoverable());
}

#[test]
fn timeout_message_names_the_seconds() {
    let err = TerminalError::timeout(7);
    assert!(err.to_string().starts_with("Request timed out after 7 seconds\n"));
    assert!(err.is_recoverable());
    assert!(!err.is_connection_error());
}

#[test]
fn other_error_is_its_message() {
    let err = TerminalError::Other("plain".to_string());
    assert_eq!(err.to_string(), "plain");
    assert_eq!(err.short_message(), "plain");
}

#[test]
fn io_error_converts() {
    let err: TerminalError = std::io::Error::new(std::io::ErrorKind::Other, "disk").into();
    assert!(err.to_string().starts_with("IO error: disk"));
}

#[test]
fn backoff_is_capped_and_non_decreasing() {
    let config = RetryConfig::for_connection();
    assert_eq!(config.delay_for_attempt(0), 200);
    assert_eq!(config.delay_for_attempt(1), 300);
    assert_eq!(config.delay_for_attempt(2), 450);
    let mut last = 0;
    for k in 0..40 {
        let d = config.delay_for_attempt(k);
        assert!(d >= last);
        assert!(d <= config.max_delay_ms);
        last = d;
    }
    assert_eq!(last, 3000);
    let query = RetryConfig::for_query();
    assert_eq!(query.delay_for_attempt(1), 1000);
    assert_eq!(query.delay_for_attempt(5), 2000);
}
