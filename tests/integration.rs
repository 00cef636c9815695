use openagent_terminal::terminal_manager::{prompt_row, status_color, status_line, StatusColor, StatusInfo, TerminalManager};

#[test]
fn test_ansi_rendering_empty() {
    let empty = "";
    let result = format!("{}{}{}", "\x1b[32m", empty, "\x1b[0m");
    assert_eq!(result, "\x1b[32m\x1b[0m");
}

#[test]
fn test_ansi_rendering_special_chars() {
    let special = "Line 1\nLine 2\tTabbed\r\nWindows line";
    let result = format!("{}{}{}", "\x1b[31m", special, "\x1b[0m");
    assert!(result.contains(special));
}

#[test]
fn test_ansi_rendering_unicode() {
    let unicode = "Hello 世界 🚀 emoji";
    let result = format!("{}{}{}", "\x1b[34m", unicode, "\x1b[0m");
    assert!(result.contains(unicode));
}

#[test]
fn test_ansi_rendering_long_lines() {
    let long_line = "x".repeat(1000);
    let result = format!("{}{}{}", "\x1b[33m", long_line, "\x1b[0m");
    assert!(result.len() > 1000);
}

#[test]
fn test_ansi_nesting() {
    let outer = "\x1b[1m";
    let inner = "\x1b[31m";
    let reset = "\x1b[0m";
    let nested = format!("{}Outer {}Inner{} Outer{}", outer, inner, reset, reset);
    assert!(nested.contains("Outer"));
    assert!(nested.contains("Inner"));
}

#[test]
fn test_ansi_reset() {
    let colored = format!("\x1b[31mRed\x1b[0m Normal");
    assert!(colored.starts_with("\x1b[31m"));
    assert!(colored.contains("\x1b[0m"));
}

#[test]
fn test_terminal_size_handling() {
    let sizes = vec![(80, 24), (120, 40), (200, 60), (40, 20)];
    for (cols, rows) in sizes {
        assert!(cols > 0 && cols < 1000);
        assert!(rows > 0 && rows < 500);
    }
}

#[test]
fn test_status_info_creation() {
    let connection_states = vec!["Connected", "Connecting", "Reconnecting", "Failed", "Disconnected"];
    for state in connection_states {
        let _ = format!("State: {}", state);
    }
}

#[test]
fn status_line_shows_state_model_and_short_session() {
    let status = StatusInfo {
        connection_state: "Connected".to_string(),
        model: "mock".to_string(),
        session_id: Some("abcdef123456".to_string()),
    };
    assert_eq!(status_line(&status, 200), "● Connected  │  🤖 mock  │  📝 abcdef12");
    assert_eq!(status_line(&status, 14), "● Conne...");
    assert_eq!(status_color("Connected"), StatusColor::Green);
    assert_eq!(status_color("Reconnecting"), StatusColor::Yellow);
    assert_eq!(status_color("Failed"), StatusColor::Red);
    assert_eq!(status_color("other"), StatusColor::White);
    assert_eq!(prompt_row(24), 22);
    assert_eq!(prompt_row(1), 0);
}

#[test]
fn terminal_modes_are_tracked() {
    let mut t = TerminalManager::new();
    assert!(t.is_raw_mode());
    assert!(t.status_text(80).is_none());
    assert!(t.enter_alternate_screen());
    assert!(!t.enter_alternate_screen());
    t.set_status(StatusInfo { connection_state: "Failed".to_string(), model: "m".to_string(), session_id: None });
    assert_eq!(t.status_text(80), Some("● Failed  │  🤖 m".to_string()));
    assert_eq!(t.restore(), (true, true));
    assert_eq!(t.restore(), (false, false));
    assert!(!t.is_raw_mode());
}

#[test]
fn alternate_screen_is_left_once() {
    let mut t = TerminalManager::new();
    assert!(!t.is_alternate_screen());
    assert!(t.enter_alternate_screen());
    assert!(t.is_alternate_screen());
    assert!(t.leave_alternate_screen());
    assert!(!t.leave_alternate_screen());
}
