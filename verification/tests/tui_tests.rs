use std::collections::HashMap;

use sqsh::completion::is_completion_separator;
use sqsh::editor::LineEditor;
use sqsh::error::Error;
use sqsh::history::MAX_SQL_HISTORY;
use sqsh::preview::{
    append_preview_record, chunk_file_name, chunk_read_error, chunk_to_flush, chunk_to_write, row_chunk_file_name,
    row_from_chunk_content, PREVIEW_CHUNK_SIZE,
};
use sqsh::query::{first_meaningful_token, is_write_sql};
use sqsh::session::{InputFocus, Navigation, PromptInputState, ShellInputState};

fn editor_with(text: &str) -> LineEditor {
    let mut e = LineEditor::new();
    e.set_text(text.to_string());
    e
}

fn prompt_with(text: &str) -> PromptInputState {
    let mut p = PromptInputState::new();
    p.editor.set_text(text.to_string());
    p
}

#[test]
fn test_input_focus_default() {
    assert_eq!(InputFocus::default(), InputFocus::Sql);
}

#[test]
fn test_shell_history_add_dedup() {
    let mut shell = ShellInputState::new();
    shell.add_to_history("ls -la");
    shell.add_to_history("ls -la");
    assert_eq!(shell.history.entries.len(), 1);
}

#[test]
fn test_shell_history_limit() {
    let mut shell = ShellInputState::new();
    for i in 0..=MAX_SQL_HISTORY {
        shell.add_to_history(&format!("cmd_{}", i));
    }
    assert_eq!(shell.history.entries.len(), MAX_SQL_HISTORY);
    assert_eq!(shell.history.entries.front().map(|s| s.as_str()), Some("cmd_1"));
}

#[test]
fn test_shell_history_prev_next() {
    let mut shell = ShellInputState::new();
    shell.add_to_history("echo hello");
    shell.add_to_history("ls");

    shell.history_prev();
    assert_eq!(shell.editor.text, "ls");
    assert_eq!(shell.history.index, Some(1));

    shell.history_prev();
    assert_eq!(shell.editor.text, "echo hello");
    assert_eq!(shell.history.index, Some(0));

    shell.history_next();
    assert_eq!(shell.editor.text, "ls");
    assert_eq!(shell.history.index, Some(1));
}

#[test]
fn test_shell_history_draft_restore() {
    let mut shell = ShellInputState::new();
    shell.editor.text = "draft text".to_string();
    shell.editor.cursor_position = 10;
    shell.add_to_history("echo hello");

    shell.history_prev();
    assert_eq!(shell.editor.text, "echo hello");
    assert_eq!(shell.history.draft, "draft text");

    shell.history_next();
    assert_eq!(shell.editor.text, "draft text");
    assert_eq!(shell.history.index, None);
}

#[test]
fn test_is_word_separator() {
    for c in [
        ' ', '\t', ',', ';', '.', '(', ')', '[', ']', '=', '<', '>', '!', '+', '-', '*', '/', '`',
        '\'', '"',
    ] {
        assert!(is_completion_separator(c), "{:?} separates words", c);
    }
    for c in ['a', 'Z', '0', '9', '_', 'あ', 'テ'] {
        assert!(!is_completion_separator(c), "{:?} belongs to a word", c);
    }
}

#[test]
fn test_word_left_basic() {
    let e = editor_with("SELECT * FROM users");
    assert_eq!(e.word_left(19), 14);
    assert_eq!(e.word_left(14), 9);
    assert_eq!(e.word_left(9), 0);
}

#[test]
fn test_word_left_from_zero() {
    let e = editor_with("SELECT");
    assert_eq!(e.word_left(0), 0);
}

#[test]
fn test_word_left_multibyte() {
    let input = "SELECT * FROM テーブル WHERE id = 1";
    let e = editor_with(input);
    let len = input.chars().count();
    assert_eq!(e.word_left(len), len - 1);
    let table_end = 14 + 4;
    let table_start = 14;
    assert_eq!(e.word_left(table_end), table_start);
}

#[test]
fn test_word_left_consecutive_separators() {
    let e = editor_with("a  =  b");
    assert_eq!(e.word_left(7), 6);
    assert_eq!(e.word_left(6), 0);
}

#[test]
fn test_word_right_basic() {
    let e = editor_with("SELECT * FROM users");
    assert_eq!(e.word_right(0), 6);
    assert_eq!(e.word_right(6), 13);
    assert_eq!(e.word_right(13), 19);
}

#[test]
fn test_word_right_from_end() {
    let e = editor_with("SELECT");
    let len = "SELECT".chars().count();
    assert_eq!(e.word_right(len), len);
}

#[test]
fn test_word_right_multibyte() {
    let e = editor_with("SELECT テーブル WHERE");
    assert_eq!(e.word_right(0), 6);
    assert_eq!(e.word_right(6), 11);
    assert_eq!(e.word_right(11), 17);
}

#[test]
fn test_word_right_consecutive_separators() {
    let e = editor_with("a  =  b");
    assert_eq!(e.word_right(0), 1);
    assert_eq!(e.word_right(1), 7);
}

#[test]
fn test_prompt_word_left_basic() {
    let p = prompt_with("SELECT * FROM users");
    assert_eq!(p.editor.word_left(19), 14);
    assert_eq!(p.editor.word_left(14), 9);
    assert_eq!(p.editor.word_left(9), 0);
}

#[test]
fn test_prompt_word_left_from_zero() {
    let p = prompt_with("SELECT");
    assert_eq!(p.editor.word_left(0), 0);
}

#[test]
fn test_prompt_word_left_multibyte() {
    let input = "SELECT * FROM テーブル WHERE id = 1";
    let p = prompt_with(input);
    let len = input.chars().count();
    assert_eq!(p.editor.word_left(len), len - 1);
    let table_end = 14 + 4;
    assert_eq!(p.editor.word_left(table_end), 14);
}

#[test]
fn test_prompt_word_left_consecutive_separators() {
    let p = prompt_with("a  =  b");
    assert_eq!(p.editor.word_left(7), 6);
    assert_eq!(p.editor.word_left(6), 0);
}

#[test]
fn test_prompt_word_right_basic() {
    let p = prompt_with("SELECT * FROM users");
    assert_eq!(p.editor.word_right(0), 6);
    assert_eq!(p.editor.word_right(6), 13);
    assert_eq!(p.editor.word_right(13), 19);
}

#[test]
fn test_prompt_word_right_from_end() {
    let p = prompt_with("SELECT");
    let len = "SELECT".chars().count();
    assert_eq!(p.editor.word_right(len), len);
}

#[test]
fn test_prompt_word_right_multibyte() {
    let p = prompt_with("SELECT テーブル WHERE");
    assert_eq!(p.editor.word_right(0), 6);
    assert_eq!(p.editor.word_right(6), 11);
    assert_eq!(p.editor.word_right(11), 17);
}

#[test]
fn test_prompt_word_right_consecutive_separators() {
    let p = prompt_with("a  =  b");
    assert_eq!(p.editor.word_right(0), 1);
    assert_eq!(p.editor.word_right(1), 7);
}

#[test]
fn test_is_write_sql_with_comments() {
    assert!(is_write_sql("/* comment */ INSERT INTO users VALUES (1)"));
    assert!(is_write_sql("-- delete old data\nDELETE FROM users"));
    assert!(is_write_sql("/* a */ -- b\nUPDATE users SET name = 'x'"));
    assert!(!is_write_sql("/* hint */ SELECT * FROM users"));
    assert!(!is_write_sql("/* only comment */"));
}

#[test]
fn test_is_write_sql_basic() {
    assert!(is_write_sql("INSERT INTO users VALUES (1)"));
    assert!(is_write_sql("UPDATE users SET name = 'x'"));
    assert!(is_write_sql("DELETE FROM users"));
    assert!(is_write_sql("DROP TABLE users"));
    assert!(is_write_sql("ALTER TABLE users ADD COLUMN age INT"));
    assert!(is_write_sql("TRUNCATE TABLE users"));
    assert!(is_write_sql("CREATE TABLE foo (id INT)"));
    assert!(is_write_sql("REPLACE INTO users VALUES (1)"));
    assert!(is_write_sql("RENAME TABLE a TO b"));
    assert!(is_write_sql("GRANT ALL ON db.* TO 'user'@'%'"));
    assert!(is_write_sql("REVOKE ALL ON db.* FROM 'user'@'%'"));
    assert!(!is_write_sql("SELECT * FROM users"));
    assert!(!is_write_sql("SHOW TABLES"));
    assert!(!is_write_sql("USE mydb"));
    assert!(is_write_sql("insert into users values (1)"));
    assert!(is_write_sql("Insert Into users values (1)"));
}

#[test]
fn test_first_meaningful_token_edge_cases() {
    assert_eq!(first_meaningful_token(""), "");
    assert_eq!(first_meaningful_token("   "), "");
    assert_eq!(first_meaningful_token("/* unclosed"), "");
    assert_eq!(first_meaningful_token("-- trailing comment"), "");
    assert_eq!(first_meaningful_token("/* c1 */ /* c2 */ SELECT"), "SELECT");
}

#[test]
fn test_is_write_sql_with_semicolons() {
    assert!(is_write_sql("DELETE FROM users;"));
    assert!(is_write_sql("INSERT INTO users VALUES (1);"));
    assert!(!is_write_sql("SELECT * FROM users;"));
}

#[test]
fn test_is_write_sql_cte_prefixed() {
    assert!(!is_write_sql("WITH cte AS (SELECT 1) SELECT * FROM cte"));
    assert!(is_write_sql(
        "WITH old AS (SELECT id FROM users WHERE age > 100) DELETE FROM users WHERE id IN (SELECT id FROM old)"
    ));
    assert!(is_write_sql("WITH src AS (SELECT * FROM temp) INSERT INTO users SELECT * FROM src"));
    assert!(is_write_sql(
        "WITH targets AS (SELECT id FROM users) UPDATE users SET active = 0 WHERE id IN (SELECT id FROM targets)"
    ));
    assert!(is_write_sql("with cte as (select 1) delete from users"));
    assert!(!is_write_sql("with cte as (select 1) select * from cte"));
}

#[test]
fn test_is_write_sql_lowercase_and_mixed_case() {
    assert!(is_write_sql("insert into users values (1)"));
    assert!(is_write_sql("dElEtE FROM users"));
    assert!(is_write_sql("  update users set x = 1"));
    assert!(!is_write_sql("select 1"));
    assert!(!is_write_sql("  show tables"));
}

fn navigation_after(last_sql: &str) -> Navigation {
    let mut nav = Navigation { current_database: None, current_table: Some("t".to_string()) };
    nav.after_command(last_sql);
    nav
}

#[test]
fn test_update_current_database_backtick_with_semicolon() {
    assert_eq!(navigation_after("USE `foo`;").current_database, Some("foo".to_string()));
}

#[test]
fn test_update_current_database_no_backtick() {
    assert_eq!(navigation_after("USE mydb").current_database, Some("mydb".to_string()));
}

#[test]
fn test_update_current_database_with_semicolon_no_backtick() {
    assert_eq!(navigation_after("USE mydb;").current_database, Some("mydb".to_string()));
}

#[test]
fn test_update_current_database_backtick_no_semicolon() {
    assert_eq!(navigation_after("USE `my-db`").current_database, Some("my-db".to_string()));
}

/// Chunk files kept in memory, written as the preview writer writes them.
struct Chunks {
    files: HashMap<String, String>,
    buf: String,
}

impl Chunks {
    fn new() -> Self {
        Chunks { files: HashMap::new(), buf: String::new() }
    }

    fn append(&mut self, row_index: usize, columns: &[String], data: &[String]) {
        append_preview_record(&mut self.buf, &columns.to_vec(), &data.to_vec());
        if let Some(chunk) = chunk_to_write(row_index) {
            self.files.insert(chunk_file_name(chunk), std::mem::take(&mut self.buf));
        }
    }

    fn flush(&mut self, row_index: usize) {
        if let Some(chunk) = chunk_to_flush(row_index, &self.buf) {
            self.files.insert(chunk_file_name(chunk), std::mem::take(&mut self.buf));
        }
    }

    fn read(&self, row_index: usize, columns: &[String]) -> Result<Vec<String>, Error> {
        match self.files.get(&row_chunk_file_name(row_index)) {
            Some(content) => row_from_chunk_content(content, row_index, &columns.to_vec()),
            None => Err(chunk_read_error(row_index, "No such file or directory (os error 2)")),
        }
    }
}

#[test]
fn test_read_row_from_chunk_single_row() {
    let columns = vec!["id".to_string(), "name".to_string(), "value".to_string()];
    let data = vec!["1".to_string(), "Alice".to_string(), "100".to_string()];
    let mut chunks = Chunks::new();
    chunks.append(0, &columns, &data);
    chunks.flush(0);
    let result = chunks.read(0, &columns).unwrap();
    assert_eq!(result, data);
}

#[test]
fn test_read_row_from_chunk_multiple_rows() {
    let columns = vec!["col1".to_string(), "col2".to_string()];
    let rows: Vec<Vec<String>> =
        (0..5).map(|i| vec![format!("val1_{}", i), format!("val2_{}", i)]).collect();
    let mut chunks = Chunks::new();
    for (i, row) in rows.iter().enumerate() {
        chunks.append(i, &columns, row);
    }
    chunks.flush(rows.len() - 1);
    assert_eq!(chunks.read(0, &columns).unwrap(), rows[0]);
    assert_eq!(chunks.read(2, &columns).unwrap(), rows[2]);
    assert_eq!(chunks.read(4, &columns).unwrap(), rows[4]);
}

#[test]
fn test_read_row_from_chunk_across_chunk_boundary() {
    let columns = vec!["id".to_string()];
    let total_rows = PREVIEW_CHUNK_SIZE + 3;
    let mut chunks = Chunks::new();
    for i in 0..total_rows {
        chunks.append(i, &columns, &[i.to_string()]);
    }
    chunks.flush(total_rows - 1);

    let last_in_chunk0 = PREVIEW_CHUNK_SIZE - 1;
    assert_eq!(chunks.read(last_in_chunk0, &columns).unwrap(), vec![last_in_chunk0.to_string()]);
    let first_in_chunk1 = PREVIEW_CHUNK_SIZE;
    assert_eq!(chunks.read(first_in_chunk1, &columns).unwrap(), vec![first_in_chunk1.to_string()]);
    let third_in_chunk1 = PREVIEW_CHUNK_SIZE + 2;
    assert_eq!(chunks.read(third_in_chunk1, &columns).unwrap(), vec![third_in_chunk1.to_string()]);
}

#[test]
fn test_read_row_from_chunk_column_with_colon() {
    let columns = vec!["col:name".to_string(), "normal".to_string()];
    let data = vec!["value1".to_string(), "value2".to_string()];
    let mut chunks = Chunks::new();
    chunks.append(0, &columns, &data);
    chunks.flush(0);
    let result = chunks.read(0, &columns).unwrap();
    assert_eq!(result[0], "value1");
    assert_eq!(result[1], "value2");
}

#[test]
fn test_read_row_from_chunk_missing_file() {
    let columns = vec!["id".to_string()];
    let chunks = Chunks::new();
    let result = chunks.read(0, &columns);
    assert!(result.is_err());
    let err_msg = result.unwrap_err().display();
    assert!(err_msg.contains("チャンクファイルの読み込みに失敗しました"));
}

#[test]
fn test_read_row_from_chunk_out_of_bounds() {
    let columns = vec!["id".to_string()];
    let mut chunks = Chunks::new();
    chunks.append(0, &columns, &["1".to_string()]);
    chunks.flush(0);
    let result = chunks.read(1, &columns);
    assert!(result.is_err());
    let err_msg = result.unwrap_err().display();
    assert!(err_msg.contains("選択された行がチャンクファイル内に見つかりません"));
}

// Further cases of this library.

#[test]
fn tab_cycles_through_the_input_areas() {
    assert_eq!(InputFocus::Sql.next(true), InputFocus::Shell);
    assert_eq!(InputFocus::Shell.next(true), InputFocus::Prompt);
    assert_eq!(InputFocus::Prompt.next(true), InputFocus::Sql);
    assert_eq!(InputFocus::Shell.next(false), InputFocus::Sql);
}

#[test]
fn a_statement_other_than_use_keeps_the_navigation() {
    let nav = navigation_after("SELECT 1");
    assert_eq!(nav.current_database, None);
    assert_eq!(nav.current_table, Some("t".to_string()));
    let nav = navigation_after("USE db");
    assert_eq!(nav.current_table, None);
}

#[test]
fn blank_shell_commands_are_not_recorded() {
    let mut shell = ShellInputState::new();
    shell.add_to_history("   ");
    assert!(shell.history.entries.is_empty());
    shell.add_to_history("  pwd  ");
    assert_eq!(shell.history.entries.back().map(|s| s.as_str()), Some("pwd"));
}

#[test]
fn leftover_records_go_to_the_last_rows_chunk() {
    assert_eq!(chunk_to_flush(1002, "a: 1\n---\n"), Some(1));
    assert_eq!(chunk_to_flush(999, "a: 1\n---\n"), Some(0));
    assert_eq!(chunk_to_flush(1002, ""), None);
    assert_eq!(row_chunk_file_name(1999), "chunk_1.txt");
    assert_eq!(row_chunk_file_name(7), "chunk_0.txt");
}
