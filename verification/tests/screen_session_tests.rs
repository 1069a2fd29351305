use sqsh::config::{BastionConfig, BastionSetting, ConnectionConfig, MysqlConfig, Password, PoolConfigPartial, SslMode};
use sqsh::error::Error;
use sqsh::i18n::Lang;
use sqsh::result_actions::{SelectedRecord, SkimAction};
use sqsh::screen::{
    breadcrumb, build_multiline_text, completion_popup_rect, connection_entry_text,
    connection_info_text, cursor_position_in_multiline, record_preview_text, sql_input_title, Area,
    CrumbKind, LineText,
};
use sqsh::session::{
    apply_prompt_outcome, apply_query_outcome, apply_result_action, error_key_effect, query_failed_message,
    shell_command_argv, task_stopped_message, ErrorKeyEffect, FollowUp, InputFocus, PromptInputState,
    PromptOutcome, Navigation, QueryFollowUp, QueryOutcome,
};
use sqsh::perf::Duration;
use sqsh::query::QueryResult;
use sqsh::sql_input::{Key, SqlInputState};
use sqsh::startup::{default_log_filter, resolve_config_path, resolve_lang};

fn conn(bastion: Option<BastionSetting>) -> ConnectionConfig {
    ConnectionConfig {
        name: "prod".to_string(),
        bastion,
        mysql: MysqlConfig {
            host: "db.internal".to_string(),
            port: 3307,
            database: "app".to_string(),
            user: "alice".to_string(),
            password: Password::from("pw".to_string()),
            timeout: 5,
            ssl_mode: SslMode::Required,
            pool: PoolConfigPartial::default(),
        },
        readonly: false,
    }
}

fn bastion() -> BastionConfig {
    BastionConfig { host: "jump".to_string(), port: 2222, user: "ops".to_string(), key_path: Some("/k".to_string()) }
}

#[test]
fn popup_goes_below_the_cursor() {
    let input = Area { x: 0, y: 2, width: 80, height: 5 };
    let screen = Area { x: 0, y: 0, width: 80, height: 24 };
    let r = completion_popup_rect(input, 5, 3, screen);
    assert_eq!(r, Area { x: 6, y: 4, width: 40, height: 5 });
}

#[test]
fn popup_moves_up_and_left_near_the_edges() {
    let input = Area { x: 0, y: 20, width: 80, height: 5 };
    let screen = Area { x: 0, y: 0, width: 60, height: 24 };
    let r = completion_popup_rect(input, 30, 50, screen);
    assert_eq!(r, Area { x: 20, y: 12, width: 40, height: 8 });
}

#[test]
fn lines_are_split_at_newlines_with_the_selection_highlighted() {
    let lines = build_multiline_text("ab\ncde\n", Some(1), 4);
    assert_eq!(lines.len(), 3);
    match &lines[0] {
        LineText::Highlighted { before, selected, after } => {
            assert_eq!((before.as_str(), selected.as_str(), after.as_str()), ("a", "b", ""));
        }
        _ => panic!("the first line overlaps the selection"),
    }
    match &lines[1] {
        LineText::Highlighted { before, selected, after } => {
            assert_eq!((before.as_str(), selected.as_str(), after.as_str()), ("", "c", "de"));
        }
        _ => panic!("the second line overlaps the selection"),
    }
    assert!(matches!(&lines[2], LineText::Plain(t) if t.is_empty()));
    let plain = build_multiline_text("x", None, 0);
    assert!(matches!(&plain[0], LineText::Plain(t) if t == "x"));
}

#[test]
fn cursor_wraps_with_the_input_width() {
    assert_eq!(cursor_position_in_multiline("hello", 5, 10), (5, 0));
    assert_eq!(cursor_position_in_multiline("hello world", 11, 4), (3, 2));
    assert_eq!(cursor_position_in_multiline("ab\ncdef", 6, 10), (3, 1));
    assert_eq!(cursor_position_in_multiline("abcdef\nx", 8, 4), (1, 2));
    assert_eq!(cursor_position_in_multiline("\n\nz", 2, 5), (0, 2));
    assert_eq!(cursor_position_in_multiline("テーブル", 2, 10), (4, 0));
    assert_eq!(cursor_position_in_multiline("ab", 9, 10), (0, 1));
}

#[test]
fn breadcrumb_shows_the_path() {
    assert!(breadcrumb(None, Some("jump"), Some("db"), None).is_none());
    let crumbs = breadcrumb(Some("prod"), Some("jump"), Some("db"), Some("users")).unwrap();
    let parts: Vec<(CrumbKind, &str)> = crumbs.iter().map(|c| (c.kind, c.text.as_str())).collect();
    assert_eq!(
        parts,
        vec![
            (CrumbKind::Bastion, "jump"),
            (CrumbKind::Separator, " > "),
            (CrumbKind::Connection, "prod"),
            (CrumbKind::Separator, " > "),
            (CrumbKind::Database, "db"),
            (CrumbKind::Separator, " > "),
            (CrumbKind::Table, "users"),
        ]
    );
    let short = breadcrumb(Some("prod"), None, None, Some("users")).unwrap();
    assert_eq!(short.len(), 1);
}

#[test]
fn connection_texts() {
    assert_eq!(connection_entry_text(&conn(None)), "prod - alice@db.internal:3307");
    assert_eq!(
        connection_entry_text(&conn(Some(BastionSetting::Config(bastion())))),
        "prod - alice@db.internal:3307 (via ops@jump)"
    );
    assert_eq!(
        connection_info_text(&conn(None), Some("other"), Lang::En),
        "Target: prod\nHost: db.internal:3307\nDatabase: app\nSelected Database: other"
    );
    let record = SelectedRecord { columns: vec![("id".to_string(), "1".to_string()), ("n".to_string(), "x".to_string())] };
    assert_eq!(record_preview_text(&record), "id: 1\nn: x");
    let title = sql_input_title(true, Lang::En);
    assert_eq!(title.len(), 3);
    assert!(title[1].1);
    assert_eq!(title[1].0, "[READONLY]");
    assert_eq!(sql_input_title(false, Lang::En).len(), 1);
}

#[test]
fn shell_commands_run_here_or_on_the_bastion() {
    assert_eq!(shell_command_argv("ls -l", None), vec!["sh", "-c", "ls -l"]);
    let b = bastion();
    assert_eq!(shell_command_argv("uptime", Some(&b)), vec!["ssh", "-p", "2222", "ops@jump", "-i", "/k", "uptime"]);
}

#[test]
fn drilling_down_records_and_runs_the_statement() {
    let mut sql = SqlInputState::new();
    let mut record = Some(SelectedRecord { columns: vec![] });
    let next = apply_result_action(&mut sql, &mut record, Some(SkimAction::DrillDown("USE `db`".to_string())), true);
    assert_eq!(next, FollowUp::RunCommand);
    assert_eq!(sql.editor.text, "USE `db`");
    assert_eq!(sql.editor.cursor_position, 8);
    assert!(record.is_none());
    assert_eq!(sql.history.entries.len(), 1);
    let next = apply_result_action(&mut sql, &mut record, Some(SkimAction::DrillDown("SELECT * FROM `t`".to_string())), true);
    assert_eq!(next, FollowUp::Stream);
    let next = apply_result_action(&mut sql, &mut record, Some(SkimAction::DrillDown("SELECT 1".to_string())), false);
    assert_eq!(next, FollowUp::Execute);
}

#[test]
fn choosing_a_record_or_closing_the_picker() {
    let mut sql = SqlInputState::new();
    let mut record = None;
    let chosen = SelectedRecord { columns: vec![("id".to_string(), "7".to_string())] };
    let next = apply_result_action(
        &mut sql,
        &mut record,
        Some(SkimAction::SelectRecord { where_template: "SELECT * FROM `t` WHERE `id` = '7'".to_string(), record: chosen }),
        true,
    );
    assert_eq!(next, FollowUp::Nothing);
    assert!(record.is_some());
    assert_eq!(sql.editor.text, "SELECT * FROM `t` WHERE `id` = '7'");
    assert_eq!(apply_result_action(&mut sql, &mut record, None, false), FollowUp::Nothing);
    assert_eq!(sql.editor.text, "SELECT * FROM `t` WHERE `id` = '7'");
    apply_result_action(&mut sql, &mut record, None, true);
    assert_eq!(sql.editor.text, "");
}

#[test]
fn replacing_the_input_after_a_picker_keeps_the_selection_anchor() {
    let mut sql = SqlInputState::new();
    sql.editor.set_text("SELECT 1".to_string());
    sql.editor.selection_start = Some(2);
    let mut record = None;
    apply_result_action(&mut sql, &mut record, Some(SkimAction::DrillDown("USE `db`".to_string())), true);
    assert_eq!(sql.editor.text, "USE `db`");
    assert_eq!(sql.editor.cursor_position, 8);
    assert_eq!(sql.editor.selection_start, Some(2));
}

#[test]
fn prompt_results_go_into_the_sql_input() {
    let mut prompt = PromptInputState::new();
    prompt.is_processing = true;
    prompt.loading_tick = 9;
    let mut sql = SqlInputState::new();
    let mut focus = InputFocus::Prompt;
    apply_prompt_outcome(&mut prompt, &mut sql, &mut focus, PromptOutcome::Generated("SELECT *\n  FROM t".to_string()), Lang::En);
    assert_eq!(sql.editor.text, "SELECT * FROM t");
    assert_eq!(focus, InputFocus::Sql);
    assert!(!prompt.is_processing);
    assert_eq!(prompt.loading_tick, 0);

    prompt.is_processing = true;
    let mut focus = InputFocus::Prompt;
    apply_prompt_outcome(&mut prompt, &mut sql, &mut focus, PromptOutcome::Failed(Error::Other("boom".to_string())), Lang::En);
    assert_eq!(prompt.last_error.as_deref(), Some("boom"));
    assert_eq!(focus, InputFocus::Prompt);
    apply_prompt_outcome(&mut prompt, &mut sql, &mut focus, PromptOutcome::Crashed("panic".to_string()), Lang::En);
    assert_eq!(prompt.last_error.as_deref(), Some("タスクが異常終了しました: panic"));
}

#[test]
fn loading_animation_ticks_only_while_processing() {
    let mut prompt = PromptInputState::new();
    prompt.tick();
    assert_eq!(prompt.loading_tick, 0);
    prompt.is_processing = true;
    prompt.loading_tick = 255;
    prompt.tick();
    assert_eq!(prompt.loading_tick, 0);
}

#[test]
fn error_screen_keys() {
    assert_eq!(error_key_effect(Key::Enter, true), ErrorKeyEffect::Quit);
    assert_eq!(error_key_effect(Key::Char('q'), false), ErrorKeyEffect::Restore);
    assert_eq!(error_key_effect(Key::Esc, false), ErrorKeyEffect::Restore);
    assert_eq!(error_key_effect(Key::Char('x'), true), ErrorKeyEffect::Ignore);
}

#[test]
fn query_failure_messages() {
    let e = Error::QueryTimeout;
    assert_eq!(query_failed_message(&e, Lang::En), "Query execution failed: Query execution timed out");
    assert_eq!(task_stopped_message(true, "SELECT 1", "", Lang::En), "Query execution was cancelled: SELECT 1");
    assert_eq!(task_stopped_message(false, "", "boom", Lang::Ja), "クエリ実行タスクが異常終了しました: boom");
}

#[test]
fn language_comes_from_the_command_line_then_the_file() {
    assert_eq!(resolve_lang(Some("ja"), Some("en")), Ok(Lang::Ja));
    assert_eq!(resolve_lang(None, Some("ja")), Ok(Lang::Ja));
    assert_eq!(resolve_lang(None, None), Ok(Lang::En));
    assert_eq!(
        resolve_lang(Some("fr"), None),
        Err("Invalid --lang value: Unsupported language: 'fr'. Supported: en, ja".to_string())
    );
    assert_eq!(
        resolve_lang(None, Some("de")),
        Err("Invalid language in config.toml: Unsupported language: 'de'. Supported: en, ja".to_string())
    );
    assert_eq!(default_log_filter(true), "debug");
    assert_eq!(default_log_filter(false), "info");
}

#[test]
fn configuration_file_search_order() {
    assert_eq!(resolve_config_path(Some("/etc/sqsh.toml"), |_| false), "/etc/sqsh.toml");
    assert_eq!(resolve_config_path(None, |p| p == "config.toml"), "config.toml");
    let standard = resolve_config_path(None, |_| false);
    assert!(standard.ends_with("/.config/sqsh/config.toml"));
    assert_eq!(resolve_config_path(None, |p| p != "config.toml"), standard);
}

#[test]
fn a_finished_query_leads_to_the_picker_the_error_screen_or_the_input() {
    let mut nav = Navigation { current_database: None, current_table: Some("t".to_string()) };
    let mut sql = SqlInputState::new();
    sql.editor.set_text("SELECT 1".to_string());
    match apply_query_outcome(&mut sql, &mut nav, QueryOutcome::Failed(Error::Other("boom".to_string())), "SELECT 1", Lang::En) {
        QueryFollowUp::ShowError(m) => assert_eq!(m, "Query execution failed: boom"),
        _ => panic!("expected the error screen"),
    }
    assert_eq!(sql.editor.text, "SELECT 1");
    match apply_query_outcome(
        &mut sql,
        &mut nav,
        QueryOutcome::Stopped { cancelled: true, detail: "task 1 was cancelled".to_string() },
        "SELECT 1",
        Lang::En,
    ) {
        QueryFollowUp::ShowError(m) => assert_eq!(m, "Query execution was cancelled: SELECT 1"),
        _ => panic!("expected the error screen"),
    }
    let shown = QueryResult {
        columns: vec!["1".to_string()],
        rows: vec![vec!["1".to_string()]],
        execution_time: Duration::from_millis(3),
        should_display: true,
    };
    match apply_query_outcome(&mut sql, &mut nav, QueryOutcome::Finished(shown), "SELECT 1", Lang::En) {
        QueryFollowUp::ShowResult(r) => assert_eq!(r.rows.len(), 1),
        _ => panic!("expected the result picker"),
    }
    assert_eq!(sql.editor.text, "");
    sql.last_sql = "USE `shop`".to_string();
    let command = QueryResult { columns: vec![], rows: vec![], execution_time: Duration::from_millis(1), should_display: false };
    assert!(matches!(
        apply_query_outcome(&mut sql, &mut nav, QueryOutcome::Finished(command), "USE `shop`", Lang::En),
        QueryFollowUp::Connected
    ));
    assert_eq!(nav.current_database.as_deref(), Some("shop"));
    assert_eq!(nav.current_table, None);
}
