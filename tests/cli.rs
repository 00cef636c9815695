use openagent_terminal::cli::{Cli, LogLevel};
use openagent_terminal::config::{Keybindings, TerminalConfig, ToolsConfig};

fn cli(log_level: Option<LogLevel>, verbose: bool, quiet: bool) -> Cli {
    Cli { socket: None, config: None, log_level, generate_config: false, model: None, verbose, quiet }
}

#[test]
fn test_log_level_conversion() {
    assert_eq!(LogLevel::Info.to_filter_str(), "info");
    assert_eq!(LogLevel::Debug.to_filter_str(), "debug");
    assert_eq!(LogLevel::Error.to_filter_str(), "error");
}

#[test]
fn test_effective_log_level() {
    let c = Cli {
        socket: None,
        config: None,
        log_level: Some(LogLevel::Debug),
        generate_config: false,
        model: None,
        verbose: false,
        quiet: true,
    };
    assert!(matches!(c.effective_log_level(), LogLevel::Error));
    let c = Cli {
        socket: None,
        config: None,
        log_level: None,
        generate_config: false,
        model: None,
        verbose: true,
        quiet: false,
    };
    assert!(matches!(c.effective_log_level(), LogLevel::Debug));
    let c = Cli {
        socket: None,
        config: None,
        log_level: Some(LogLevel::Trace),
        generate_config: false,
        model: None,
        verbose: false,
        quiet: false,
    };
    assert!(matches!(c.effective_log_level(), LogLevel::Trace));
}

#[test]
fn default_level_is_info() {
    assert_eq!(cli(None, false, false).effective_log_level(), LogLevel::Info);
    assert_eq!(LogLevel::Off.to_level_filter(), log::LevelFilter::Off);
    assert_eq!(LogLevel::Warn.to_level_filter(), log::LevelFilter::Warn);
}

#[test]
fn socket_path_precedence() {
    let mut c = cli(None, false, false);
    assert_eq!(c.effective_socket_path(None, None), "/tmp/openagent-terminal-test.sock");
    assert_eq!(c.effective_socket_path(None, Some("/run/user/1".to_string())), "/run/user/1/openagent-terminal-test.sock");
    assert_eq!(c.effective_socket_path(Some("/env.sock".to_string()), None), "/env.sock");
    c.socket = Some("/cli.sock".to_string());
    assert_eq!(c.effective_socket_path(Some("/env.sock".to_string()), None), "/cli.sock");
    assert!(!c.should_generate_config());
    assert_eq!(c.effective_config_path(), None);
}

#[test]
fn config_sections_have_their_defaults() {
    let t = TerminalConfig::default();
    assert_eq!(t.font_size, 14);
    assert_eq!(t.theme, "monokai");
    let k = Keybindings::default();
    assert_eq!(k.cancel, "Ctrl+C");
    let tools = ToolsConfig::default();
    assert!(!tools.enable_real_execution);
    assert_eq!(tools.safe_directories, vec!["~".to_string(), ".".to_string()]);
}
