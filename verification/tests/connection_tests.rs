use sqsh::config::{BastionConfig, BastionSetting, ConnectionConfig, MysqlConfig, Password, PoolConfigPartial, SslMode};
use sqsh::error::{DbError, DbErrorKind, Error};
use sqsh::retry::{
    after_failed_attempt, bastion_key_file, is_timeout_error, mysql_endpoint, needs_tunnel, session_setup_statement,
    ssh_auth_error, ssh_not_authenticated, RetryStep,
};
use sqsh::i18n::Lang;
use sqsh::session::effective_readonly;
use sqsh::tunnel::{Pump, PUMP_BUFFER_MAX};

fn create_test_connection_config(name: &str) -> ConnectionConfig {
    ConnectionConfig {
        name: name.to_string(),
        bastion: None,
        mysql: MysqlConfig {
            host: "localhost".to_string(),
            port: 3306,
            database: "test_db".to_string(),
            user: "test_user".to_string(),
            password: Password::from("test_password".to_string()),
            timeout: 5,
            ssl_mode: SslMode::Required,
            pool: PoolConfigPartial::default(),
        },
        readonly: false,
    }
}

#[test]
fn test_connection_manager_structure() {
    let config = create_test_connection_config("structure");
    assert!(!needs_tunnel(&config));
}

#[test]
fn test_bastion_config_structure() {
    let bastion = BastionConfig {
        host: "bastion.example.com".to_string(),
        port: 22,
        user: "devuser".to_string(),
        key_path: Some("~/.ssh/id_rsa".to_string()),
    };

    assert_eq!(bastion.host, "bastion.example.com");
    assert_eq!(bastion.port, 22);
    assert_eq!(bastion.user, "devuser");
    assert_eq!(bastion.key_path, Some("~/.ssh/id_rsa".to_string()));
}

#[test]
fn test_is_timeout_error() {
    let timeout_err = Error::DatabaseConnection(DbError {
        kind: DbErrorKind::PoolTimedOut,
        message: "pool timed out while waiting for an open connection".to_string(),
    });
    assert!(is_timeout_error(&timeout_err));

    let other_err = Error::Connection("接続に失敗しました".to_string());
    assert!(!is_timeout_error(&other_err));
}

// Further cases of this library.

#[test]
fn timeouts_are_recognised_in_messages() {
    let io = |m: &str| Error::DatabaseConnection(DbError { kind: DbErrorKind::Io, message: m.to_string() });
    assert!(is_timeout_error(&io("Connection Timed Out")));
    assert!(!is_timeout_error(&io("connection refused")));
    let tls = Error::DatabaseConnection(DbError { kind: DbErrorKind::Tls, message: "timeout".to_string() });
    assert!(!is_timeout_error(&tls));
    assert!(is_timeout_error(&Error::Connection("SSH: タイムアウトしました".to_string())));
    assert!(is_timeout_error(&Error::Connection("bastion: TIMEOUT".to_string())));
    assert!(!is_timeout_error(&Error::Other("timeout".to_string())));
}

#[test]
fn retries_back_off_and_stop() {
    let refused = Error::Connection("refused".to_string());
    assert_eq!(after_failed_attempt(0, &refused), RetryStep::RetryAfterMs(100));
    assert_eq!(after_failed_attempt(1, &refused), RetryStep::RetryAfterMs(200));
    assert_eq!(after_failed_attempt(2, &refused), RetryStep::GiveUp);
    let timed_out = Error::Connection("timed out".to_string());
    assert_eq!(after_failed_attempt(0, &timed_out), RetryStep::FailNow);
}

#[test]
fn tunnelled_connections_go_to_localhost() {
    let mut c = create_test_connection_config("t");
    assert_eq!(mysql_endpoint(&c, 4000), ("localhost".to_string(), 3306));
    c.bastion = Some(BastionSetting::Config(BastionConfig {
        host: "b".to_string(),
        port: 22,
        user: "u".to_string(),
        key_path: None,
    }));
    assert!(needs_tunnel(&c));
    assert_eq!(mysql_endpoint(&c, 4000), ("127.0.0.1".to_string(), 4000));
    c.bastion = Some(BastionSetting::Toggle(true));
    assert!(!needs_tunnel(&c));
}

#[test]
fn bastion_key_files_are_expanded() {
    let mut b = BastionConfig { host: "b".to_string(), port: 22, user: "u".to_string(), key_path: None };
    assert_eq!(bastion_key_file(&b), None);
    b.key_path = Some("/keys/id_ed25519".to_string());
    assert_eq!(bastion_key_file(&b), Some("/keys/id_ed25519".to_string()));
    b.key_path = Some("~/.ssh/id_rsa".to_string());
    let expanded = bastion_key_file(&b).unwrap();
    assert!(expanded.ends_with("/.ssh/id_rsa"));
    assert!(!expanded.starts_with('~'));
    b.key_path = Some("~other/.ssh/id_rsa".to_string());
    assert_eq!(bastion_key_file(&b), Some("~other/.ssh/id_rsa".to_string()));
}

#[test]
fn pump_forwards_bytes_in_order() {
    let mut p = Pump::new();
    assert!(p.wants_local_read());
    p.local_read(b"hello ");
    p.local_read(b"world");
    assert_eq!(p.pending_to_remote(), b"hello world");
    p.remote_accepted(3);
    assert_eq!(p.pending_to_remote(), b"lo world");
    p.remote_accepted(8);
    assert!(p.pending_to_remote().is_empty());
    assert!(!p.should_send_eof());
    p.local_read(b"");
    assert!(!p.wants_local_read());
    assert!(p.should_send_eof());
    p.eof_sent();
    assert!(!p.should_send_eof());

    assert!(p.wants_remote_read());
    p.remote_read(b"ok");
    assert!(!p.finished());
    p.local_accepted(2);
    p.remote_read(b"");
    assert!(p.finished());
}

#[test]
fn pump_stops_reading_when_the_buffer_is_full() {
    let mut p = Pump::new();
    let chunk = vec![7u8; 16384];
    let mut reads = 0;
    while p.wants_local_read() {
        p.local_read(&chunk);
        reads += 1;
    }
    assert_eq!(reads, PUMP_BUFFER_MAX / 16384);
    assert_eq!(p.pending_to_remote().len(), PUMP_BUFFER_MAX);
    p.remote_accepted(1);
    assert!(p.wants_local_read());
}

#[test]
fn read_only_sessions_are_set_up_to_refuse_writes() {
    assert_eq!(session_setup_statement(true), Some("SET SESSION transaction_read_only = ON".to_string()));
    assert_eq!(session_setup_statement(false), None);
}

#[test]
fn the_command_line_makes_every_connection_read_only() {
    let mut c = create_test_connection_config("ro");
    assert!(!effective_readonly(false, &c));
    assert!(effective_readonly(true, &c));
    c.readonly = true;
    assert!(effective_readonly(false, &c));
}

#[test]
fn ssh_authentication_errors_report_each_failure() {
    match ssh_auth_error(Some("bad key"), "no agent", Lang::En) {
        Error::Connection(m) => assert_eq!(
            m,
            "SSH authentication failed. Key authentication error: bad key. SSH agent authentication error: no agent"
        ),
        _ => panic!("expected a connection error"),
    }
    match ssh_auth_error(None, "no agent", Lang::Ja) {
        Error::Connection(m) => assert!(m.starts_with("SSH agent認証に失敗しました: no agent")),
        _ => panic!("expected a connection error"),
    }
    match ssh_not_authenticated(Lang::En) {
        Error::Connection(m) => assert_eq!(m, "SSH authentication failed. Please check your credentials."),
        _ => panic!("expected a connection error"),
    }
}
