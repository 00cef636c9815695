use openagent_terminal::ansi::colors;
use openagent_terminal::ansi::{format_code_block, format_diff, render_block, terminal_width, SyntaxHighlighter};

#[test]
fn test_highlight_rust() {
    let code = "fn main() { println!(\"Hello\"); }";
    let highlighted = SyntaxHighlighter::highlight(code, "rust");
    assert!(highlighted.contains("fn"));
    assert!(highlighted.contains("\x1b["));
}

#[test]
fn test_highlight_python() {
    let code = "def hello():\n    print('world')";
    let highlighted = SyntaxHighlighter::highlight(code, "python");
    assert!(highlighted.contains("def"));
    assert!(highlighted.contains("\x1b["));
}

#[test]
fn test_highlight_javascript() {
    let code = "function test() { return true; }";
    let highlighted = SyntaxHighlighter::highlight(code, "javascript");
    assert!(highlighted.contains("function"));
}

#[test]
fn test_highlight_bash() {
    let code = "if [ -f file ]; then echo 'exists'; fi";
    let highlighted = SyntaxHighlighter::highlight(code, "bash");
    assert!(highlighted.contains("if"));
}

#[test]
fn test_unknown_language() {
    let code = "some code";
    let highlighted = SyntaxHighlighter::highlight(code, "unknown");
    assert_eq!(highlighted, code);
}

#[test]
fn test_format_code_block() {
    let code = "fn test() {}";
    let formatted = format_code_block("rust", code, terminal_width(None));
    assert!(formatted.contains("┌"));
    assert!(formatted.contains("└"));
    assert!(formatted.contains("rust"));
}

#[test]
fn test_format_diff() {
    let diff = "+added line\n-removed line\n unchanged";
    let formatted = format_diff(diff, terminal_width(None));
    assert!(formatted.contains("Diff"));
    assert!(formatted.contains("+added"));
    assert!(formatted.contains("-removed"));
}

#[test]
fn test_ansi_colors() {
    assert_eq!(colors::RESET, "\x1b[0m");
    assert_eq!(colors::RED, "\x1b[31m");
    assert_eq!(colors::GREEN, "\x1b[32m");
}

#[test]
fn rust_keywords_are_colored_between_spaces_and_at_line_start() {
    let out = SyntaxHighlighter::highlight_rust("let x = 1; if y { }");
    assert_eq!(out, "\x1b[35mlet x = 1; \x1b[35mif\x1b[0m y { }\n");
}

#[test]
fn strings_and_comments_are_colored() {
    let out = SyntaxHighlighter::highlight("x = \"a\" // note", "RUST");
    assert_eq!(out, "x = \x1b[32m\"a\"\x1b[0m \x1b[90m// note\x1b[0m\n");
}

#[test]
fn unterminated_string_is_closed() {
    assert_eq!(SyntaxHighlighter::highlight_strings("say \"hi"), "say \x1b[32m\"hi\x1b[0m");
}

#[test]
fn json_literals_are_cyan() {
    let out = SyntaxHighlighter::highlight("{\"a\": true, \"b\": null}", "json");
    assert_eq!(out, "{\x1b[32m\"a\"\x1b[0m: \x1b[36mtrue\x1b[0m, \x1b[32m\"b\"\x1b[0m: \x1b[36mnull\x1b[0m}\n");
}

#[test]
fn lines_drop_carriage_returns() {
    let out = SyntaxHighlighter::highlight_bash("echo a\r\necho b\n");
    assert_eq!(out, "echo a\necho b\n");
}

#[test]
fn code_block_frame_has_exact_width() {
    let out = format_code_block("py", "pass", 10);
    assert_eq!(out, "\n\x1b[90m\x1b[2m┌─ py ─────\x1b[0m\npass\n\x1b[90m\x1b[2m└─────────\x1b[0m");
}

#[test]
fn diff_lines_are_colored_by_sign() {
    let out = format_diff("+a\n-b\nc", 9);
    assert_eq!(
        out,
        "\n\x1b[90m\x1b[2m┌─ Diff ──\x1b[0m\n\x1b[32m+a\x1b[0m\n\x1b[31m-b\x1b[0m\nc\n\x1b[90m\x1b[2m└────────\x1b[0m\n"
    );
}

#[test]
fn terminal_width_is_clamped() {
    assert_eq!(terminal_width(Some(10)), 38);
    assert_eq!(terminal_width(Some(80)), 78);
    assert_eq!(terminal_width(Some(500)), 198);
    assert_eq!(terminal_width(None), 78);
}

#[test]
fn each_language_has_its_own_highlighter() {
    assert_eq!(SyntaxHighlighter::highlight_python("x = 1 # c"), "x = 1 \x1b[90m# c\x1b[0m\n");
    assert_eq!(SyntaxHighlighter::highlight_javascript("a = b // c"), "a = b \x1b[90m// c\x1b[0m\n");
    assert_eq!(SyntaxHighlighter::highlight_json("false"), "\x1b[36mfalse\x1b[0m\n");
    assert_eq!(SyntaxHighlighter::highlight("let", "TS"), "let\n");
}

#[test]
fn blocks_render_by_kind() {
    assert_eq!(render_block("code", "py", "pass", 10), format_code_block("py", "pass", 10));
    assert_eq!(render_block("diff", "", "+a", 9), format_diff("+a", 9));
    assert_eq!(render_block("text", "x", "plain", 9), "plain");
}
