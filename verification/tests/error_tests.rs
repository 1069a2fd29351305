use sqsh::error::{DbError, DbErrorKind, Error, Result};
use sqsh::i18n::{ErrorMsg, Lang};

#[test]
fn test_error_display_config() {
    let err = Error::Config("invalid config".to_string());
    assert_eq!(err.display(), "Config error: invalid config");
}

#[test]
fn test_error_display_config_load() {
    let err = Error::ConfigLoad("file not found".to_string());
    assert_eq!(err.display(), "Failed to load config: file not found");
}

#[test]
fn test_error_display_config_permission() {
    let err = Error::ConfigPermission("644".to_string());
    assert_eq!(err.display(), "Invalid config file permission (recommended: 600): 644");
}

#[test]
fn test_error_display_connection() {
    let err = Error::Connection("connection failed".to_string());
    assert_eq!(err.display(), "Connection error: connection failed");
}

#[test]
fn test_error_display_query() {
    let err = Error::Query("syntax error".to_string());
    assert_eq!(err.display(), "SQL execution failed: syntax error");
}

#[test]
fn test_error_display_query_timeout() {
    let err = Error::QueryTimeout;
    assert_eq!(err.display(), "Query execution timed out");
}

#[test]
fn test_error_display_tui() {
    let err = Error::Tui("render failed".to_string());
    assert_eq!(err.display(), "TUI error: render failed");
}

#[test]
fn test_error_display_other() {
    let err = Error::Other("unknown error".to_string());
    assert_eq!(err.display(), "unknown error");
}

#[test]
fn test_result_type_alias() {
    fn returns_result() -> Result<i32> {
        Ok(42)
    }

    fn returns_error() -> Result<i32> {
        Err(Error::Other("test error".to_string()))
    }

    assert_eq!(returns_result().unwrap(), 42);
    assert!(returns_error().is_err());
}

#[test]
fn test_error_debug_format() {
    let err = Error::Config("test".to_string());
    let debug_str = format!("{:?}", err);
    assert!(debug_str.contains("Config"));
    assert!(debug_str.contains("test"));
}

#[test]
fn test_connection_helper() {
    let err = Error::connection("test error");
    assert_eq!(err.display(), "Connection error: test error");
}

#[test]
fn test_connection_context_helper() {
    let err = Error::connection_context("SSH", "timeout");
    assert_eq!(err.display(), "Connection error: SSH: timeout");
}

#[test]
fn test_config_helper() {
    let err = Error::config("invalid value");
    assert_eq!(err.display(), "Config error: invalid value");
}

#[test]
fn test_user_message_returns_localized() {
    let msg = ErrorMsg::QueryTimeout.translate(Lang::En);
    assert_eq!(msg, "Query execution timed out");
    let msg_ja = ErrorMsg::QueryTimeout.translate(Lang::Ja);
    assert_eq!(msg_ja, "クエリの実行がタイムアウトしました");
}

// Further cases of this library.

#[test]
fn user_message_in_both_languages() {
    let err = Error::Connection("refused".to_string());
    assert_eq!(err.user_message(Lang::En), "Connection error: refused");
    assert_eq!(err.user_message(Lang::Ja), "接続エラー: refused");
    assert_eq!(err.user_message(Lang::En), err.display());
}

#[test]
fn database_connection_errors_show_the_driver_message() {
    let err = Error::database_connection_detail(DbError {
        kind: DbErrorKind::Tls,
        message: "handshake failed".to_string(),
    });
    assert_eq!(err.display(), "Database connection failed: handshake failed");
    assert_eq!(err.user_message(Lang::Ja), "データベースへの接続に失敗しました: handshake failed");
}

#[test]
fn every_error_kind_has_its_lead_in() {
    assert_eq!(Error::QueryExecution("x".to_string()).display(), "SQL query execution failed: x");
    assert_eq!(Error::Io("disk".to_string()).display(), "I/O error: disk");
    assert_eq!(Error::Tui("t".to_string()).user_message(Lang::Ja), "TUIエラー: t");
}
