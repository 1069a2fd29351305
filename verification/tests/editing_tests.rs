use sqsh::editor::LineEditor;
use sqsh::history::History;
use sqsh::name_map::NameMap;
use sqsh::result_actions::{
    build_preview_cmd, determine_skim_action, normalize_sql_to_oneliner, qualified_table_name,
    select_columns_query, show_columns_query, show_tables_query, show_tables_rewrite, SkimAction,
};
use sqsh::session::take_statement;
use sqsh::sql_input::{expand_aliases, Key, KeyAction, Modifiers, SqlInputState};
use sqsh::table_view::{calculate_column_widths, format_row_display, pad_to_width, streamed_header};

fn none() -> Modifiers {
    Modifiers { ctrl: false, alt: false, shift: false }
}

fn ctrl() -> Modifiers {
    Modifiers { ctrl: true, alt: false, shift: false }
}

fn typed(text: &str) -> SqlInputState {
    let mut s = SqlInputState::new();
    for c in text.chars() {
        s.handle_connected_key(Key::Char(c), none(), false);
    }
    s
}

#[test]
fn enter_streams_reads_and_refuses_writes_when_read_only() {
    let mut s = typed("SELECT 1");
    assert_eq!(s.editor.text, "SELECT 1");
    assert_eq!(s.handle_connected_key(Key::Enter, none(), false).action, KeyAction::StreamQuery);
    assert_eq!(take_statement(&mut s, Some("db"), true), "SELECT 1");
    assert_eq!(s.last_sql, "SELECT 1");
    let mut s = typed("show tables");
    assert_eq!(take_statement(&mut s, Some("db"), true), "SHOW TABLES FROM `db`");
    assert_eq!(s.editor.text, "SHOW TABLES FROM `db`");
    assert_eq!(s.last_sql, "SHOW TABLES FROM `db`");
    let mut s = typed("show tables");
    assert_eq!(take_statement(&mut s, Some("db"), false), "show tables");
    let mut s = typed("DELETE FROM t");
    assert_eq!(s.handle_connected_key(Key::Enter, none(), true).action, KeyAction::ReadonlyBlocked);
    let mut s = typed("use db");
    assert_eq!(s.handle_connected_key(Key::Enter, none(), false).action, KeyAction::ExecuteInBackground);
    let mut s = typed("   ");
    assert_eq!(s.handle_connected_key(Key::Enter, none(), false).action, KeyAction::Nothing);
}

#[test]
fn aliases_expand() {
    assert_eq!(expand_aliases(" sd "), "SHOW DATABASES");
    assert_eq!(expand_aliases("ST"), "SHOW TABLES");
    assert_eq!(expand_aliases("select"), "select");
}

#[test]
fn kill_and_yank_round_trip() {
    let mut e = LineEditor::new();
    e.set_text("hello world".to_string());
    e.move_to(5);
    e.kill_to_end();
    assert_eq!(e.text, "hello");
    assert_eq!(e.kill_buffer, " world");
    e.yank();
    assert_eq!(e.text, "hello world");
    assert_eq!(e.cursor_position, 11);
}

#[test]
fn kill_to_start_and_yank_round_trip() {
    let mut e = LineEditor::new();
    e.set_text("SELECT 日本語".to_string());
    e.move_to(7);
    e.kill_to_start();
    assert_eq!(e.text, "日本語");
    assert_eq!(e.cursor_position, 0);
    e.yank();
    assert_eq!(e.text, "SELECT 日本語");
    assert_eq!(e.cursor_position, 7);
}

#[test]
fn backspace_undoes_typing() {
    let mut e = LineEditor::new();
    e.set_text("abc".to_string());
    e.move_to(1);
    e.insert_char('é');
    assert_eq!(e.text, "aébc");
    e.backspace();
    assert_eq!(e.text, "abc");
    assert_eq!(e.cursor_position, 1);
    assert_eq!(e.selection_start, None);
}

#[test]
fn typing_replaces_the_selection() {
    let mut e = LineEditor::new();
    e.set_text("abc".to_string());
    e.select_all();
    e.insert_char('x');
    assert_eq!(e.text, "x");
    assert_eq!(e.cursor_position, 1);
    assert_eq!(e.selection_start, None);
}

#[test]
fn ctrl_a_then_typing_in_the_sql_input() {
    let mut s = typed("abc");
    s.handle_connected_key(Key::Char('a'), ctrl(), false);
    s.handle_connected_key(Key::Char('z'), none(), false);
    assert_eq!(s.editor.text, "z");
}

#[test]
fn history_browsing_comes_back_to_the_draft() {
    let mut h = History::new();
    let mut e = LineEditor::new();
    h.add("SELECT 1");
    h.add("SELECT 1");
    h.add("SELECT 2");
    assert_eq!(h.entries.len(), 2);
    e.set_text("draft".to_string());
    assert!(h.prev(&mut e));
    assert_eq!(e.text, "SELECT 2");
    h.next(&mut e);
    assert_eq!(e.text, "draft");
    assert_eq!(h.index, None);
}

#[test]
fn name_map_keeps_the_last_insert() {
    let mut m = NameMap::new();
    m.insert("a".to_string(), vec!["1".to_string()]);
    m.insert("b".to_string(), vec!["2".to_string()]);
    m.insert("a".to_string(), vec!["3".to_string()]);
    assert_eq!(m.get("a"), Some(&vec!["3".to_string()]));
    assert_eq!(m.get("b"), Some(&vec!["2".to_string()]));
    assert!(m.get("c").is_none());
    assert!(m.contains_key("b"));
}

#[test]
fn cells_are_padded_and_cut_by_display_width() {
    assert_eq!(pad_to_width("abc", 5), "abc  ");
    assert_eq!(pad_to_width("abcdefgh", 6), "abc...");
    assert_eq!(pad_to_width("テーブル", 5), "テ...");
    let long = "x".repeat(50);
    assert_eq!(
        calculate_column_widths(&vec!["id".to_string(), "name".to_string()], &vec![vec!["1".to_string(), long]]),
        vec![4, 40]
    );
    assert_eq!(format_row_display(&vec!["1".to_string(), "x".to_string()], &vec![4, 4]), "1    | x   ");
}

#[test]
fn picking_a_row_decides_the_next_statement() {
    let cols = vec!["Database".to_string()];
    match determine_skim_action("Database", "my`db", &cols, &vec!["my`db".to_string()], "SHOW DATABASES") {
        SkimAction::DrillDown(s) => assert_eq!(s, "USE `my``db`"),
        _ => panic!("a database row drills down"),
    }
    let cols = vec!["Tables_in_app".to_string()];
    match determine_skim_action("Tables_in_app", "users", &cols, &vec!["users".to_string()], "SHOW TABLES") {
        SkimAction::DrillDown(s) => assert_eq!(s, "SELECT * FROM `users`"),
        _ => panic!("a table row drills down"),
    }
    let cols = vec!["name".to_string(), "age".to_string()];
    let vals = vec!["O'Brien\\".to_string(), "3".to_string()];
    match determine_skim_action("name", "O'Brien\\", &cols, &vals, "SELECT * FROM people") {
        SkimAction::SelectRecord { where_template, record } => {
            assert_eq!(where_template, "SELECT * FROM `people` WHERE `name` = 'O\\'Brien\\\\'");
            assert_eq!(record.columns.len(), 2);
            assert_eq!(record.columns[1], ("age".to_string(), "3".to_string()));
        }
        _ => panic!("another row selects the record"),
    }
}

#[test]
fn statements_for_tables_and_columns() {
    assert_eq!(show_tables_rewrite("show tables;", Some("db")), Some("SHOW TABLES FROM `db`".to_string()));
    assert_eq!(show_tables_rewrite("SELECT 1", Some("db")), None);
    assert_eq!(show_tables_rewrite("SHOW TABLES", None), None);
    assert_eq!(show_tables_query(Some("d")), "SHOW TABLES FROM `d`");
    assert_eq!(show_tables_query(None), "SHOW TABLES");
    let q = qualified_table_name(Some("d"), "t");
    assert_eq!(q, "`d`.`t`");
    assert_eq!(qualified_table_name(None, "t"), "`t`");
    assert_eq!(show_columns_query(&q), "SHOW COLUMNS FROM `d`.`t`");
    assert_eq!(select_columns_query(&vec!["a".to_string(), "b".to_string()], &q), "SELECT `a`, `b` FROM `d`.`t`");
}

#[test]
fn generated_sql_becomes_one_line() {
    assert_eq!(normalize_sql_to_oneliner("  SELECT *\r\n FROM t\n\nWHERE  a = 1 "), "SELECT * FROM t WHERE a = 1");
}

#[test]
fn preview_command_quotes_the_directory_and_table() {
    let cmd = build_preview_cmd("/tmp/o'k", Some("t'x"));
    assert!(cmd.contains("FILE='/tmp/o'\\''k/chunk_'$CHUNK'.txt'"));
    assert!(cmd.contains("echo '[Table: t'\\''x]'; echo ''; "));
    assert!(cmd.starts_with("IDX={}; CHUNK=$((IDX / 1000)); OFF=$((IDX % 1000)); "));
}

#[test]
fn streamed_headers_name_the_columns_or_say_there_are_none() {
    assert_eq!(streamed_header(&vec![], &vec![]), "(結果なし)");
    let columns = vec!["id".to_string(), "name".to_string()];
    assert_eq!(streamed_header(&columns, &vec![4, 6]), "id   | name  ");
}
