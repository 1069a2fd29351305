use sqsh::i18n::{get_lang, set_lang, ConfigMsg, ConnectionMsg, ErrorMsg, Lang, LangCell, TuiMsg};

#[test]
fn test_lang_from_str_en() {
    assert_eq!("en".parse::<Lang>(), Ok(Lang::En));
}

#[test]
fn test_lang_from_str_ja() {
    assert_eq!("ja".parse::<Lang>(), Ok(Lang::Ja));
}

#[test]
fn test_lang_from_str_unknown() {
    assert!("fr".parse::<Lang>().is_err());
    assert!("".parse::<Lang>().is_err());
    assert!("EN".parse::<Lang>().is_err());
}

#[test]
fn test_lang_default_is_en() {
    assert_eq!(Lang::default(), Lang::En);
}

#[test]
fn test_get_lang_default_is_en() {
    assert_eq!(Lang::default(), Lang::En);
}

#[test]
fn test_config_msg_not_found_en() {
    let msg = ConfigMsg::NotFound { path: "/path/to/config.toml" };
    let text = msg.translate(Lang::En);
    assert!(text.contains("Config file not found"));
    assert!(text.contains("/path/to/config.toml"));
}

#[test]
fn test_config_msg_not_found_ja() {
    let msg = ConfigMsg::NotFound { path: "/path/to/config.toml" };
    let text = msg.translate(Lang::Ja);
    assert!(text.contains("設定ファイルが見つかりません"));
    assert!(text.contains("/path/to/config.toml"));
}

#[test]
fn test_config_msg_parse_failed_en() {
    let msg = ConfigMsg::ParseFailed { detail: "invalid toml" };
    let text = msg.translate(Lang::En);
    assert!(text.contains("Failed to parse config file"));
    assert!(text.contains("invalid toml"));
}

#[test]
fn test_config_msg_parse_failed_ja() {
    let msg = ConfigMsg::ParseFailed { detail: "invalid toml" };
    let text = msg.translate(Lang::Ja);
    assert!(text.contains("設定ファイルの解析に失敗しました"));
}

#[test]
fn test_config_msg_no_connections_en() {
    let msg = ConfigMsg::NoConnections;
    assert_eq!(msg.translate(Lang::En), "No connections defined in config");
}

#[test]
fn test_config_msg_no_connections_ja() {
    let msg = ConfigMsg::NoConnections;
    assert_eq!(msg.translate(Lang::Ja), "接続先が1つも定義されていません");
}

#[test]
fn test_config_msg_field_empty_en() {
    let msg = ConfigMsg::FieldEmpty { field: "host" };
    let text = msg.translate(Lang::En);
    assert!(text.contains("host"));
    assert!(text.contains("is empty"));
}

#[test]
fn test_config_msg_field_empty_ja() {
    let msg = ConfigMsg::FieldEmpty { field: "ホスト" };
    let text = msg.translate(Lang::Ja);
    assert!(text.contains("ホスト"));
    assert!(text.contains("が空です"));
}

#[test]
fn test_config_msg_invalid_port_en() {
    let msg = ConfigMsg::InvalidPort { field: "port" };
    let text = msg.translate(Lang::En);
    assert!(text.contains("port"));
    assert!(text.contains("is 0"));
}

#[test]
fn test_config_msg_invalid_port_ja() {
    let msg = ConfigMsg::InvalidPort { field: "ポート" };
    let text = msg.translate(Lang::Ja);
    assert!(text.contains("ポート"));
    assert!(text.contains("が0です"));
}

#[test]
fn test_config_msg_permission_warning_en() {
    let msg = ConfigMsg::PermissionWarning { mode: 0o644, path: "/path/config.toml" };
    let text = msg.translate(Lang::En);
    assert!(text.contains("644"));
    assert!(text.contains("chmod 600"));
    assert!(text.contains("/path/config.toml"));
}

#[test]
fn test_config_msg_permission_warning_ja() {
    let msg = ConfigMsg::PermissionWarning { mode: 0o644, path: "/path/config.toml" };
    let text = msg.translate(Lang::Ja);
    assert!(text.contains("644"));
    assert!(text.contains("chmod 600"));
}

#[test]
fn test_error_msg_config_en() {
    let msg = ErrorMsg::Config { detail: "invalid" };
    assert_eq!(msg.translate(Lang::En), "Config error: invalid");
}

#[test]
fn test_error_msg_config_ja() {
    let msg = ErrorMsg::Config { detail: "invalid" };
    assert_eq!(msg.translate(Lang::Ja), "設定エラー: invalid");
}

#[test]
fn test_error_msg_query_timeout_en() {
    let msg = ErrorMsg::QueryTimeout;
    assert_eq!(msg.translate(Lang::En), "Query execution timed out");
}

#[test]
fn test_error_msg_query_timeout_ja() {
    let msg = ErrorMsg::QueryTimeout;
    assert_eq!(msg.translate(Lang::Ja), "クエリの実行がタイムアウトしました");
}

#[test]
fn test_tui_msg_selecting_title_en() {
    let msg = TuiMsg::SelectingTitle;
    let text = msg.translate(Lang::En);
    assert!(text.contains("Select Connection"));
}

#[test]
fn test_tui_msg_selecting_title_ja() {
    let msg = TuiMsg::SelectingTitle;
    let text = msg.translate(Lang::Ja);
    assert!(text.contains("接続先選択"));
}

#[test]
fn test_tui_msg_error_title_en() {
    let msg = TuiMsg::ErrorTitle;
    assert_eq!(msg.translate(Lang::En), "Error");
}

#[test]
fn test_tui_msg_error_title_ja() {
    let msg = TuiMsg::ErrorTitle;
    assert_eq!(msg.translate(Lang::Ja), "エラー");
}

#[test]
fn test_tui_msg_query_failed_en() {
    let msg = TuiMsg::QueryFailed { detail: "syntax error" };
    let text = msg.translate(Lang::En);
    assert!(text.contains("Query execution failed"));
    assert!(text.contains("syntax error"));
}

#[test]
fn test_tui_msg_query_failed_ja() {
    let msg = TuiMsg::QueryFailed { detail: "syntax error" };
    let text = msg.translate(Lang::Ja);
    assert!(text.contains("クエリ実行に失敗しました"));
    assert!(text.contains("syntax error"));
}

#[test]
fn test_tui_msg_readonly_blocked_en() {
    let msg = TuiMsg::ReadonlyBlocked;
    let text = msg.translate(Lang::En);
    assert!(text.contains("readonly mode"));
}

#[test]
fn test_tui_msg_readonly_blocked_ja() {
    let msg = TuiMsg::ReadonlyBlocked;
    let text = msg.translate(Lang::Ja);
    assert!(text.contains("readonlyモード"));
}

#[test]
fn test_connection_msg_readonly_set_failed_en() {
    let msg = ConnectionMsg::ReadonlySetFailed { detail: "permission denied" };
    let text = msg.translate(Lang::En);
    assert!(text.contains("Failed to set readonly mode"));
    assert!(text.contains("permission denied"));
}

#[test]
fn test_connection_msg_readonly_set_failed_ja() {
    let msg = ConnectionMsg::ReadonlySetFailed { detail: "permission denied" };
    let text = msg.translate(Lang::Ja);
    assert!(text.contains("readonlyモード設定に失敗"));
}

#[test]
fn test_connection_msg_connection_failed_en() {
    let msg = ConnectionMsg::ConnectionFailed;
    assert_eq!(msg.translate(Lang::En), "Connection failed (unknown cause)");
}

#[test]
fn test_connection_msg_connection_failed_ja() {
    let msg = ConnectionMsg::ConnectionFailed;
    assert_eq!(msg.translate(Lang::Ja), "接続に失敗しました（原因不明）");
}

#[test]
fn test_connection_msg_ssh_auth_error_en() {
    let msg = ConnectionMsg::SshAuthError;
    let text = msg.translate(Lang::En);
    assert!(text.contains("SSH authentication failed"));
}

#[test]
fn test_connection_msg_ssh_auth_error_ja() {
    let msg = ConnectionMsg::SshAuthError;
    let text = msg.translate(Lang::Ja);
    assert!(text.contains("SSH認証に失敗しました"));
}

// Further cases of this library.

#[test]
fn first_language_setting_wins() {
    let mut cell = LangCell::new();
    assert_eq!(get_lang(&cell), Lang::En);
    set_lang(&mut cell, Lang::Ja);
    assert_eq!(get_lang(&cell), Lang::Ja);
    set_lang(&mut cell, Lang::En);
    assert_eq!(get_lang(&cell), Lang::Ja);
}

#[test]
fn permission_warning_writes_the_mode_in_octal() {
    let text = ConfigMsg::PermissionWarning { mode: 0o755, path: "/c" }.translate(Lang::En);
    assert_eq!(text, "Config file permission is 755. chmod 600 is recommended for security: /c");
}

#[test]
fn english_and_japanese_texts_differ() {
    assert_ne!(TuiMsg::ErrorTitle.en(), TuiMsg::ErrorTitle.ja());
    assert_eq!(TuiMsg::ErrorTitle.translate(Lang::En), TuiMsg::ErrorTitle.en());
}

#[test]
fn parse_error_names_the_value() {
    assert_eq!("fr".parse::<Lang>(), Err("Unsupported language: 'fr'. Supported: en, ja".to_string()));
}

#[test]
fn only_the_first_of_many_settings_counts() {
    let mut cell = LangCell::new();
    assert_eq!(get_lang(&cell), Lang::En);
    set_lang(&mut cell, Lang::Ja);
    set_lang(&mut cell, Lang::En);
    set_lang(&mut cell, Lang::En);
    assert_eq!(get_lang(&cell), Lang::Ja);
}
