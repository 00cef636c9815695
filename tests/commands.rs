use openagent_terminal::commands::{parse_command, Command};

#[test]
fn test_parse_query() {
    match parse_command("Hello, world!") {
        Command::Query(q) => assert_eq!(q, "Hello, world!"),
        _ => panic!("Expected Query command"),
    }
}

#[test]
fn test_parse_list_sessions() {
    match parse_command("/list") {
        Command::ListSessions(None) => {}
        _ => panic!("Expected ListSessions command"),
    }
    match parse_command("/list 10") {
        Command::ListSessions(Some(10)) => {}
        _ => panic!("Expected ListSessions with limit"),
    }
}

#[test]
fn test_parse_load_session() {
    match parse_command("/load abc123") {
        Command::LoadSession(id) => assert_eq!(id, "abc123"),
        _ => panic!("Expected LoadSession command"),
    }
}

#[test]
fn test_parse_export_session() {
    match parse_command("/export") {
        Command::ExportSession { session_id: None, format, output_file: None } => {
            assert_eq!(format, "markdown");
        }
        _ => panic!("Expected ExportSession command"),
    }
    match parse_command("/export abc123 --format=json --output=out.json") {
        Command::ExportSession { session_id, format, output_file } => {
            assert_eq!(session_id, Some("abc123".to_string()));
            assert_eq!(format, "json");
            assert_eq!(output_file, Some("out.json".to_string()));
        }
        _ => panic!("Expected ExportSession with args"),
    }
}

#[test]
fn test_parse_delete_session() {
    match parse_command("/delete xyz789") {
        Command::DeleteSession(id) => assert_eq!(id, "xyz789"),
        _ => panic!("Expected DeleteSession command"),
    }
}

#[test]
fn test_parse_info() {
    match parse_command("/info") {
        Command::SessionInfo => {}
        _ => panic!("Expected SessionInfo command"),
    }
}

#[test]
fn test_parse_help() {
    match parse_command("/help") {
        Command::Help => {}
        _ => panic!("Expected Help command"),
    }
}

#[test]
fn test_parse_exit() {
    match parse_command("/exit") {
        Command::Exit => {}
        _ => panic!("Expected Exit command"),
    }
    match parse_command("/quit") {
        Command::Exit => {}
        _ => panic!("Expected Exit command"),
    }
}

#[test]
fn commands_are_read_after_trimming() {
    assert!(matches!(parse_command("   "), Command::Help));
    assert!(matches!(parse_command("  /ls  +7 "), Command::ListSessions(Some(7))));
    assert!(matches!(parse_command("/list ten"), Command::ListSessions(None)));
    assert!(matches!(parse_command("/list 99999999999999999999999"), Command::ListSessions(None)));
    assert!(matches!(parse_command("/load"), Command::Help));
    assert!(matches!(parse_command("/bogus"), Command::Help));
    match parse_command("/") {
        Command::Query(q) => assert_eq!(q, "/"),
        _ => panic!("a bare slash is a query"),
    }
    match parse_command("/export --verbose s1") {
        Command::ExportSession { session_id, format, output_file } => {
            assert_eq!(session_id, Some("s1".to_string()));
            assert_eq!(format, "markdown");
            assert_eq!(output_file, None);
        }
        _ => panic!(),
    }
}
