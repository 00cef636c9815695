//! Configuration sections and their defaults. Reading and writing the
//! configuration file is done by the application.

use vstd::prelude::*;

verus! {

/// Terminal display settings.
#[derive(Debug, Clone)]
pub struct TerminalConfig {
    pub font_family: String,
    pub font_size: u16,
    pub theme: String,
    pub scrollback_lines: u32,
    pub syntax_highlighting: bool,
}

/// Keyboard shortcuts.
#[derive(Debug, Clone)]
pub struct Keybindings {
    pub toggle_ai: String,
    pub send_query: String,
    pub cancel: String,
    pub clear_screen: String,
    pub show_history: String,
}

/// Tool execution settings.
#[derive(Debug, Clone)]
pub struct ToolsConfig {
    pub enable_real_execution: bool,
    pub safe_directories: Vec<String>,
    pub command_timeout: u64,
}

impl Default for TerminalConfig {
    /// DejaVu Sans Mono at 14 points, the monokai theme, 10000 lines of
    /// scrollback, highlighting on.
    fn default() -> (r: TerminalConfig)
        ensures
            r.font_family@ == "DejaVu Sans Mono"@,
            r.font_size == 14,
            r.theme@ == "monokai"@,
            r.scrollback_lines == 10000,
            r.syntax_highlighting,
    {
        TerminalConfig {
            font_family: "DejaVu Sans Mono".to_owned(),
            font_size: 14,
            theme: "monokai".to_owned(),
            scrollback_lines: 10000,
            syntax_highlighting: true,
        }
    }
}

impl Default for Keybindings {
    /// Ctrl+A, Enter, Ctrl+C, Ctrl+K and Ctrl+L.
    fn default() -> (r: Keybindings)
        ensures
            r.toggle_ai@ == "Ctrl+A"@,
            r.send_query@ == "Enter"@,
            r.cancel@ == "Ctrl+C"@,
            r.clear_screen@ == "Ctrl+K"@,
            r.show_history@ == "Ctrl+L"@,
    {
        Keybindings {
            toggle_ai: "Ctrl+A".to_owned(),
            send_query: "Enter".to_owned(),
            cancel: "Ctrl+C".to_owned(),
            clear_screen: "Ctrl+K".to_owned(),
            show_history: "Ctrl+L".to_owned(),
        }
    }
}

impl Default for ToolsConfig {
    /// Demo mode, the home and current directories, a 10 s timeout.
    fn default() -> (r: ToolsConfig)
        ensures
            !r.enable_real_execution,
            r.safe_directories@.len() == 2,
            r.safe_directories@[0]@ == "~"@,
            r.safe_directories@[1]@ == "."@,
            r.command_timeout == 10,
    {
        let mut dirs: Vec<String> = Vec::new();
        dirs.push("~".to_owned());
        dirs.push(".".to_owned());
        ToolsConfig { enable_real_execution: false, safe_directories: dirs, command_timeout: 10 }
    }
}

} // verus!
