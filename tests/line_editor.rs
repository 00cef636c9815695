use openagent_terminal::line_editor::{EditorAction, Key, LineEditor, Modifiers};

#[test]
fn test_line_editor_creation() {
    let editor = LineEditor::new();
    assert_eq!(editor.get_buffer(), "");
    assert_eq!(editor.cursor(), 0);
}

#[test]
fn test_character_insertion() {
    let mut editor = LineEditor::new();
    let action = editor.handle_key(Key::Char('h'), Modifiers::Plain);
    assert_eq!(action, EditorAction::Redraw);
    assert_eq!(editor.get_buffer(), "h");
    let action = editor.handle_key(Key::Char('i'), Modifiers::Plain);
    assert_eq!(action, EditorAction::Redraw);
    assert_eq!(editor.get_buffer(), "hi");
}

#[test]
fn test_backspace() {
    let mut editor = LineEditor::new();
    editor.set_buffer("hello".to_string());
    editor.handle_key(Key::Backspace, Modifiers::Plain);
    assert_eq!(editor.get_buffer(), "hell");
}

#[test]
fn test_submit() {
    let mut editor = LineEditor::new();
    editor.set_buffer("test command".to_string());
    let action = editor.handle_key(Key::Enter, Modifiers::Plain);
    match action {
        EditorAction::Submit(text) => assert_eq!(text, "test command"),
        _ => panic!("Expected Submit action"),
    }
}

#[test]
fn test_history_navigation() {
    let mut editor = LineEditor::new();
    editor.add_to_history("command1");
    editor.add_to_history("command2");
    editor.add_to_history("command3");
    let cmd = editor.navigate_up();
    assert_eq!(cmd, Some("command3".to_string()));
    let cmd = editor.navigate_up();
    assert_eq!(cmd, Some("command2".to_string()));
    let cmd = editor.navigate_down();
    assert_eq!(cmd, Some("command3".to_string()));
}

#[test]
fn test_history_no_duplicates() {
    let mut editor = LineEditor::new();
    editor.add_to_history("command");
    editor.add_to_history("command");
    assert_eq!(editor.history_len(), 1);
}

#[test]
fn test_ctrl_d_exit() {
    let mut editor = LineEditor::new();
    let action = editor.handle_key(Key::Char('d'), Modifiers::Control);
    assert_eq!(action, EditorAction::Exit);
}

#[test]
fn test_ctrl_c_cancel() {
    let mut editor = LineEditor::new();
    editor.set_buffer("some text".to_string());
    let action = editor.handle_key(Key::Char('c'), Modifiers::Control);
    assert_eq!(action, EditorAction::Cancel);
}

#[test]
fn test_cursor_movement() {
    let mut editor = LineEditor::new();
    editor.set_buffer("hello".to_string());
    editor.handle_key(Key::Home, Modifiers::Plain);
    assert_eq!(editor.cursor(), 0);
    editor.handle_key(Key::End, Modifiers::Plain);
    assert_eq!(editor.cursor(), 5);
}

#[test]
fn test_unicode_emoji_navigation() {
    let mut editor = LineEditor::new();
    editor.set_buffer("hello 👋 world".to_string());
    assert_eq!(editor.cursor(), 16);
    editor.handle_key(Key::Left, Modifiers::Plain);
    assert_eq!(editor.get_buffer().chars().count(), 13);
    editor.handle_key(Key::Home, Modifiers::Plain);
    assert_eq!(editor.cursor(), 0);
}

#[test]
fn test_delete_emoji() {
    let mut editor = LineEditor::new();
    editor.set_buffer("hi👋".to_string());
    editor.handle_key(Key::Backspace, Modifiers::Plain);
    assert_eq!(editor.get_buffer(), "hi");
}

#[test]
fn test_delete_prev_word() {
    let mut editor = LineEditor::new();
    editor.set_buffer("hello world test".to_string());
    editor.delete_prev_word();
    assert_eq!(editor.get_buffer(), "hello world ");
    editor.delete_prev_word();
    assert_eq!(editor.get_buffer(), "hello ");
}

#[test]
fn test_delete_to_start() {
    let mut editor = LineEditor::new();
    editor.set_buffer("hello world".to_string());
    editor.set_cursor(5);
    editor.delete_to_start();
    assert_eq!(editor.get_buffer(), " world");
    assert_eq!(editor.cursor(), 0);
}

#[test]
fn test_delete_to_end() {
    let mut editor = LineEditor::new();
    editor.set_buffer("hello world".to_string());
    editor.set_cursor(5);
    editor.delete_to_end();
    assert_eq!(editor.get_buffer(), "hello");
    assert_eq!(editor.cursor(), 5);
}

#[test]
fn test_ctrl_w_delete_word() {
    let mut editor = LineEditor::new();
    editor.set_buffer("test command here".to_string());
    let action = editor.handle_key(Key::Char('w'), Modifiers::Control);
    assert_eq!(action, EditorAction::DeletePrevWord);
}

#[test]
fn test_ctrl_u_delete_to_start() {
    let mut editor = LineEditor::new();
    editor.set_buffer("some text".to_string());
    let action = editor.handle_key(Key::Char('u'), Modifiers::Control);
    assert_eq!(action, EditorAction::DeleteToStart);
}

#[test]
fn test_ctrl_k_delete_to_end() {
    let mut editor = LineEditor::new();
    editor.set_buffer("some text".to_string());
    editor.set_cursor(4);
    let action = editor.handle_key(Key::Char('k'), Modifiers::Control);
    assert_eq!(action, EditorAction::DeleteToEnd);
}

#[test]
fn test_word_movement() {
    let mut editor = LineEditor::new();
    editor.set_buffer("one two three".to_string());
    editor.set_cursor(0);
    editor.handle_key(Key::Right, Modifiers::Control);
    assert!(editor.cursor() == 4 || editor.cursor() == 0);
    let end = editor.get_buffer().len();
    editor.set_cursor(end);
    editor.handle_key(Key::Left, Modifiers::Control);
    assert!(editor.cursor() < editor.get_buffer().len());
}

#[test]
fn test_reverse_search_mode() {
    let mut editor = LineEditor::new();
    editor.add_to_history("first command");
    editor.add_to_history("second command");
    editor.add_to_history("third test");
    let action = editor.handle_key(Key::Char('r'), Modifiers::Control);
    assert_eq!(action, EditorAction::ReverseSearch);
    editor.start_reverse_search();
    assert!(editor.is_reverse_search());
    editor.exit_reverse_search();
    assert!(!editor.is_reverse_search());
}

#[test]
fn test_grapheme_cluster_deletion() {
    let mut editor = LineEditor::new();
    editor.set_buffer("cafe\u{301}".to_string());
    let initial_len = editor.get_buffer().len();
    editor.delete_grapheme_backward();
    assert!(editor.get_buffer().len() < initial_len);
    assert_eq!(editor.get_buffer(), "caf");
}

#[test]
fn history_skips_blank_and_leading_space_and_is_bounded() {
    let mut editor = LineEditor::with_history_size(2);
    editor.add_to_history("");
    editor.add_to_history(" indented");
    assert_eq!(editor.history_len(), 0);
    editor.add_to_history("a");
    editor.add_to_history("b");
    editor.add_to_history("c");
    assert_eq!(editor.history_len(), 2);
    assert_eq!(editor.get_recent_history(5), vec!["c".to_string(), "b".to_string()]);
}

#[test]
fn navigation_restores_the_saved_line() {
    let mut editor = LineEditor::new();
    editor.add_to_history("old");
    editor.set_buffer("draft".to_string());
    assert_eq!(editor.navigate_up(), Some("old".to_string()));
    assert_eq!(editor.navigate_up(), None);
    assert_eq!(editor.navigate_down(), Some("draft".to_string()));
    assert_eq!(editor.navigate_down(), None);
}

#[test]
fn reverse_search_finds_newest_match_then_older() {
    let mut editor = LineEditor::new();
    editor.add_to_history("git status");
    editor.add_to_history("ls");
    editor.add_to_history("git commit");
    editor.start_reverse_search();
    assert_eq!(editor.search_add_char('g'), Some("git commit".to_string()));
    assert_eq!(editor.get_search_query(), "g");
    assert_eq!(editor.search_backspace(), None);
}

#[test]
fn render_places_cursor_in_bytes() {
    let mut editor = LineEditor::new();
    editor.set_buffer("héllo".to_string());
    editor.set_cursor(3);
    let (line, at) = editor.render("> ");
    assert_eq!(line, "> héllo");
    assert_eq!(at, 5);
}

#[test]
fn delete_forward_removes_the_cluster_at_the_cursor() {
    let mut editor = LineEditor::new();
    editor.set_buffer("ab".to_string());
    editor.set_cursor(0);
    editor.handle_key(Key::Delete, Modifiers::Plain);
    assert_eq!(editor.get_buffer(), "b");
    editor.handle_key(Key::Right, Modifiers::Plain);
    assert_eq!(editor.cursor(), 1);
}
