use sqsh::completion::{CompletionItem, CompletionKind};
use sqsh::editor::LineEditor;
use sqsh::session::{
    apply_line_key, tab_switches_focus, InputFocus, LineKeyResult, PromptInputState, ShellInputState,
};
use sqsh::sql_input::{CompletionState, Key, Modifiers, SqlInputState};

fn plain() -> Modifiers {
    Modifiers { ctrl: false, alt: false, shift: false }
}

fn shift() -> Modifiers {
    Modifiers { ctrl: false, alt: false, shift: true }
}

fn ctrl() -> Modifiers {
    Modifiers { ctrl: true, alt: false, shift: false }
}

fn editor(text: &str, cursor: usize, selection: Option<usize>) -> LineEditor {
    let mut e = LineEditor::new();
    e.set_text(text.to_string());
    e.cursor_position = cursor;
    e.selection_start = selection;
    e
}

fn shell_with(text: &str, cursor: usize, selection: Option<usize>) -> ShellInputState {
    let mut s = ShellInputState::new();
    s.editor = editor(text, cursor, selection);
    s
}

fn prompt_with(text: &str, cursor: usize, selection: Option<usize>) -> PromptInputState {
    let mut p = PromptInputState::new();
    p.editor = editor(text, cursor, selection);
    p
}

/// A key in the shell input, as the interface routes it.
fn shell_key(s: &mut ShellInputState, key: Key, m: Modifiers) {
    match apply_line_key(&mut s.editor, key, m) {
        LineKeyResult::Submit => s.submit(),
        LineKeyResult::HistoryPrev => s.history_prev(),
        LineKeyResult::HistoryNext => s.history_next(),
        _ => {}
    }
}

/// Tab as the interface routes it (no prompt without an API key).
fn tab(focus: InputFocus, sql: &mut SqlInputState) -> InputFocus {
    if tab_switches_focus(focus, Key::Tab, sql.completion_state.is_some()) {
        focus.next(false)
    } else {
        sql.handle_connected_key(Key::Tab, plain(), false);
        focus
    }
}

#[test]
fn test_tab_switches_focus_sql_to_shell() {
    let mut sql = SqlInputState::new();
    assert_eq!(tab(InputFocus::Sql, &mut sql), InputFocus::Shell);
}

#[test]
fn test_tab_switches_focus_shell_to_sql() {
    let mut sql = SqlInputState::new();
    assert_eq!(tab(InputFocus::Shell, &mut sql), InputFocus::Sql);
}

#[test]
fn test_tab_does_not_switch_focus_when_completion_visible() {
    let mut sql = SqlInputState::new();
    sql.completion_state = Some(CompletionState {
        candidates: vec![CompletionItem { text: "SELECT".to_string(), kind: CompletionKind::Keyword }],
        selected_index: 0,
        current_token: "S".to_string(),
    });
    assert_eq!(tab(InputFocus::Sql, &mut sql), InputFocus::Sql);
}

#[test]
fn tab_cycles_through_the_prompt_when_it_is_available() {
    assert_eq!(InputFocus::Shell.next(true), InputFocus::Prompt);
    assert_eq!(InputFocus::Prompt.next(true), InputFocus::Sql);
    assert!(tab_switches_focus(InputFocus::Prompt, Key::Tab, true));
    assert!(!tab_switches_focus(InputFocus::Shell, Key::Enter, false));
}

#[test]
fn test_shell_input_char_insert() {
    let mut s = shell_with("", 0, None);
    shell_key(&mut s, Key::Char('l'), plain());
    assert_eq!(s.editor.text, "l");
    assert_eq!(s.editor.cursor_position, 1);
}

#[test]
fn test_shell_input_backspace() {
    let mut s = shell_with("ls", 2, None);
    shell_key(&mut s, Key::Backspace, plain());
    assert_eq!(s.editor.text, "l");
    assert_eq!(s.editor.cursor_position, 1);
}

#[test]
fn test_shell_shift_right_sets_selection() {
    let mut s = shell_with("ls -la", 3, None);
    shell_key(&mut s, Key::Right, shift());
    assert_eq!(s.editor.selection_start, Some(3));
    assert_eq!(s.editor.cursor_position, 4);
}

#[test]
fn test_shell_shift_left_sets_selection() {
    let mut s = shell_with("ls -la", 4, None);
    shell_key(&mut s, Key::Left, shift());
    assert_eq!(s.editor.selection_start, Some(4));
    assert_eq!(s.editor.cursor_position, 3);
}

#[test]
fn test_shell_shift_home_selects_to_beginning() {
    let mut s = shell_with("ls -la", 4, None);
    shell_key(&mut s, Key::Home, shift());
    assert_eq!(s.editor.selection_start, Some(4));
    assert_eq!(s.editor.cursor_position, 0);
}

#[test]
fn test_shell_shift_end_selects_to_end() {
    let mut s = shell_with("ls -la", 2, None);
    shell_key(&mut s, Key::End, shift());
    assert_eq!(s.editor.selection_start, Some(2));
    assert_eq!(s.editor.cursor_position, 6);
}

#[test]
fn test_shell_left_clears_selection() {
    let mut s = shell_with("ls -la", 4, Some(2));
    shell_key(&mut s, Key::Left, plain());
    assert_eq!(s.editor.selection_start, None);
    assert_eq!(s.editor.cursor_position, 3);
}

#[test]
fn test_shell_right_clears_selection() {
    let mut s = shell_with("ls -la", 2, Some(4));
    shell_key(&mut s, Key::Right, plain());
    assert_eq!(s.editor.selection_start, None);
    assert_eq!(s.editor.cursor_position, 3);
}

#[test]
fn test_shell_char_replaces_selection() {
    let mut s = shell_with("hello world", 5, Some(0));
    shell_key(&mut s, Key::Char('X'), plain());
    assert_eq!(s.editor.text, "X world");
    assert_eq!(s.editor.cursor_position, 1);
    assert_eq!(s.editor.selection_start, None);
}

#[test]
fn test_shell_backspace_deletes_selection() {
    let mut s = shell_with("hello world", 5, Some(0));
    shell_key(&mut s, Key::Backspace, plain());
    assert_eq!(s.editor.text, " world");
    assert_eq!(s.editor.cursor_position, 0);
    assert_eq!(s.editor.selection_start, None);
}

#[test]
fn test_shell_delete_deletes_selection() {
    let mut s = shell_with("hello world", 11, Some(6));
    shell_key(&mut s, Key::Delete, plain());
    assert_eq!(s.editor.text, "hello ");
    assert_eq!(s.editor.cursor_position, 6);
    assert_eq!(s.editor.selection_start, None);
}

#[test]
fn test_shell_ctrl_k_kill_and_yank() {
    let mut s = shell_with("ls -la", 3, None);
    shell_key(&mut s, Key::Char('k'), ctrl());
    assert_eq!(s.editor.text, "ls ");
    assert_eq!(s.editor.cursor_position, 3);
    assert_eq!(s.editor.kill_buffer, "-la");
    shell_key(&mut s, Key::Char('y'), ctrl());
    assert_eq!(s.editor.text, "ls -la");
    assert_eq!(s.editor.cursor_position, 6);
}

#[test]
fn test_shell_ctrl_u_kills_before_cursor() {
    let mut s = shell_with("ls -la", 3, None);
    shell_key(&mut s, Key::Char('u'), ctrl());
    assert_eq!(s.editor.text, "-la");
    assert_eq!(s.editor.cursor_position, 0);
    assert_eq!(s.editor.kill_buffer, "ls ");
}

#[test]
fn test_shell_ctrl_w_deletes_word() {
    let mut s = shell_with("hello world", 11, None);
    shell_key(&mut s, Key::Char('w'), ctrl());
    assert_eq!(s.editor.text, "hello ");
    assert_eq!(s.editor.cursor_position, 6);
}

#[test]
fn test_shell_ctrl_a_selects_all() {
    let mut s = shell_with("ls -la", 0, None);
    shell_key(&mut s, Key::Char('a'), ctrl());
    assert_eq!(s.editor.selection_start, Some(0));
    assert_eq!(s.editor.cursor_position, 6);
}

#[test]
fn test_shell_ctrl_e_clears_selection() {
    let mut s = shell_with("ls -la", 0, Some(3));
    shell_key(&mut s, Key::Char('e'), ctrl());
    assert_eq!(s.editor.selection_start, None);
    assert_eq!(s.editor.cursor_position, 6);
}

#[test]
fn test_shell_multibyte_selection() {
    let mut s = shell_with("echo テスト", 8, Some(5));
    shell_key(&mut s, Key::Backspace, plain());
    assert_eq!(s.editor.text, "echo ");
    assert_eq!(s.editor.cursor_position, 5);
    assert_eq!(s.editor.selection_start, None);
}

#[test]
fn enter_in_the_shell_queues_the_command() {
    let mut s = shell_with("  ls -la ", 9, None);
    shell_key(&mut s, Key::Enter, plain());
    assert_eq!(s.pending_command, Some("ls -la".to_string()));
    assert_eq!(s.editor.text, "");
    shell_key(&mut s, Key::Up, plain());
    assert_eq!(s.editor.text, "ls -la");
}

#[test]
fn test_prompt_shift_right_sets_selection() {
    let mut p = prompt_with("hello world", 3, None);
    p.handle_key(Key::Right, shift());
    assert_eq!(p.editor.selection_start, Some(3));
    assert_eq!(p.editor.cursor_position, 4);
}

#[test]
fn test_prompt_shift_left_sets_selection() {
    let mut p = prompt_with("hello world", 5, None);
    p.handle_key(Key::Left, shift());
    assert_eq!(p.editor.selection_start, Some(5));
    assert_eq!(p.editor.cursor_position, 4);
}

#[test]
fn test_prompt_shift_home_selects_to_beginning() {
    let mut p = prompt_with("hello world", 5, None);
    p.handle_key(Key::Home, shift());
    assert_eq!(p.editor.selection_start, Some(5));
    assert_eq!(p.editor.cursor_position, 0);
}

#[test]
fn test_prompt_shift_end_selects_to_end() {
    let mut p = prompt_with("hello world", 3, None);
    p.handle_key(Key::End, shift());
    assert_eq!(p.editor.selection_start, Some(3));
    assert_eq!(p.editor.cursor_position, 11);
}

#[test]
fn test_prompt_left_clears_selection() {
    let mut p = prompt_with("hello world", 5, Some(2));
    p.handle_key(Key::Left, plain());
    assert_eq!(p.editor.selection_start, None);
    assert_eq!(p.editor.cursor_position, 4);
}

#[test]
fn test_prompt_right_clears_selection() {
    let mut p = prompt_with("hello world", 3, Some(8));
    p.handle_key(Key::Right, plain());
    assert_eq!(p.editor.selection_start, None);
    assert_eq!(p.editor.cursor_position, 4);
}

#[test]
fn test_prompt_char_replaces_selection() {
    let mut p = prompt_with("hello world", 5, Some(0));
    p.handle_key(Key::Char('Y'), plain());
    assert_eq!(p.editor.text, "Y world");
    assert_eq!(p.editor.cursor_position, 1);
    assert_eq!(p.editor.selection_start, None);
}

#[test]
fn test_prompt_backspace_deletes_selection() {
    let mut p = prompt_with("hello world", 5, Some(0));
    p.handle_key(Key::Backspace, plain());
    assert_eq!(p.editor.text, " world");
    assert_eq!(p.editor.cursor_position, 0);
    assert_eq!(p.editor.selection_start, None);
}

#[test]
fn test_prompt_delete_deletes_selection() {
    let mut p = prompt_with("hello world", 11, Some(6));
    p.handle_key(Key::Delete, plain());
    assert_eq!(p.editor.text, "hello ");
    assert_eq!(p.editor.cursor_position, 6);
    assert_eq!(p.editor.selection_start, None);
}

#[test]
fn test_prompt_ctrl_k_kill_and_yank() {
    let mut p = prompt_with("hello world", 6, None);
    p.handle_key(Key::Char('k'), ctrl());
    assert_eq!(p.editor.text, "hello ");
    assert_eq!(p.editor.cursor_position, 6);
    assert_eq!(p.editor.kill_buffer, "world");
    p.handle_key(Key::Char('y'), ctrl());
    assert_eq!(p.editor.text, "hello world");
    assert_eq!(p.editor.cursor_position, 11);
}

#[test]
fn test_prompt_ctrl_u_kills_before_cursor() {
    let mut p = prompt_with("hello world", 6, None);
    p.handle_key(Key::Char('u'), ctrl());
    assert_eq!(p.editor.text, "world");
    assert_eq!(p.editor.cursor_position, 0);
    assert_eq!(p.editor.kill_buffer, "hello ");
}

#[test]
fn test_prompt_ctrl_w_deletes_word() {
    let mut p = prompt_with("hello world", 11, None);
    p.handle_key(Key::Char('w'), ctrl());
    assert_eq!(p.editor.text, "hello ");
    assert_eq!(p.editor.cursor_position, 6);
}

#[test]
fn test_prompt_ctrl_a_selects_all() {
    let mut p = prompt_with("hello world", 0, None);
    p.handle_key(Key::Char('a'), ctrl());
    assert_eq!(p.editor.selection_start, Some(0));
    assert_eq!(p.editor.cursor_position, 11);
}

#[test]
fn test_prompt_ctrl_e_clears_selection() {
    let mut p = prompt_with("hello world", 0, Some(5));
    p.handle_key(Key::Char('e'), ctrl());
    assert_eq!(p.editor.selection_start, None);
    assert_eq!(p.editor.cursor_position, 11);
}

#[test]
fn test_prompt_multibyte_selection() {
    let mut p = prompt_with("SQL: テーブル名を教えて", 14, Some(5));
    p.handle_key(Key::Backspace, plain());
    assert_eq!(p.editor.text, "SQL: ");
    assert_eq!(p.editor.cursor_position, 5);
    assert_eq!(p.editor.selection_start, None);
}

#[test]
fn test_prompt_editing_ignored_while_processing() {
    let mut p = prompt_with("hello", 5, None);
    p.is_processing = true;
    assert!(matches!(p.handle_key(Key::Char('X'), plain()), LineKeyResult::Ignored));
    assert_eq!(p.editor.text, "hello");
    assert_eq!(p.editor.cursor_position, 5);
}
