use sqsh::config::{
    default_idle_timeout, default_max_connections, default_mysql_port, default_ssh_port,
    default_ssl_mode, default_timeout, permission_warning, validate_not_empty, validate_port,
    AppSettings, BastionConfig, BastionSetting, Config, ConnectionConfig, MysqlConfig, Password,
    PoolConfig, PoolConfigPartial, SslMode,
};
use sqsh::error::Error;
use sqsh::i18n::Lang;
use sqsh::startup::config_not_found;

fn mysql(host: &str, database: &str, user: &str, port: u16) -> MysqlConfig {
    MysqlConfig {
        host: host.to_string(),
        port,
        database: database.to_string(),
        user: user.to_string(),
        password: Password::from("pass".to_string()),
        timeout: 30,
        ssl_mode: SslMode::Required,
        pool: PoolConfigPartial::default(),
    }
}

fn connection(name: &str, bastion: Option<BastionSetting>, readonly: bool) -> ConnectionConfig {
    ConnectionConfig {
        name: name.to_string(),
        bastion,
        mysql: mysql("localhost", "testdb", "root", 3306),
        readonly,
    }
}

fn bastion(host: &str, port: u16, user: &str, key_path: Option<&str>) -> BastionConfig {
    BastionConfig {
        host: host.to_string(),
        port,
        user: user.to_string(),
        key_path: key_path.map(|k| k.to_string()),
    }
}

fn config(
    default_bastion: Option<BastionConfig>,
    default_mysql_pool: Option<PoolConfigPartial>,
    connections: Vec<ConnectionConfig>,
) -> Config {
    Config { default_bastion, default_mysql_pool, connections, settings: AppSettings::default() }
}

#[test]
fn test_password_debug() {
    let password = Password::from("secret".to_string());
    let debug_str = password.debug_text();
    assert!(debug_str.contains("***"));
    assert!(!debug_str.contains("secret"));
}

#[test]
fn test_default_ports() {
    assert_eq!(default_ssh_port(), 22);
    assert_eq!(default_mysql_port(), 3306);
}

#[test]
fn test_default_timeout() {
    assert_eq!(default_timeout(), 5);
}

#[test]
fn test_config_load_file_not_found() {
    let result: Result<Config, Error> = Err(config_not_found("/nonexistent/path/config.toml", Lang::En));
    assert!(result.is_err());
    assert!(matches!(result.err(), Some(Error::ConfigLoad(_))));
}

#[test]
fn test_config_validation_empty_connections() {
    let config = config(None, None, vec![]);
    let result = config.validate(Lang::En);
    assert!(result.is_err());
}

#[test]
fn test_config_validation_empty_name() {
    let config = Config {
        default_bastion: None,
        default_mysql_pool: None,
        connections: vec![ConnectionConfig {
            name: "".to_string(),
            bastion: None,
            mysql: MysqlConfig {
                host: "localhost".to_string(),
                port: 3306,
                database: "test".to_string(),
                user: "root".to_string(),
                password: Password::from("pass".to_string()),
                timeout: 30,
                ssl_mode: SslMode::Required,
                pool: PoolConfigPartial::default(),
            },
            readonly: false,
        }],
        settings: AppSettings::default(),
    };
    let result = config.validate(Lang::En);
    assert!(result.is_err());
}

#[test]
fn test_mysql_config_validation_empty_host() {
    let result = mysql("", "test", "root", 3306).validate(Lang::En);
    assert!(result.is_err());
}

#[test]
fn test_mysql_config_validation_empty_database() {
    let result = mysql("localhost", "", "root", 3306).validate(Lang::En);
    assert!(result.is_err());
}

#[test]
fn test_mysql_config_validation_empty_user() {
    let result = mysql("localhost", "test", "", 3306).validate(Lang::En);
    assert!(result.is_err());
}

#[test]
fn test_mysql_config_validation_invalid_port() {
    let result = mysql("localhost", "test", "root", 0).validate(Lang::En);
    assert!(result.is_err());
}

#[test]
fn test_bastion_config_validation_empty_host() {
    let result = bastion("", 22, "user", None).validate(Lang::En);
    assert!(result.is_err());
}

#[test]
fn test_bastion_config_validation_empty_user() {
    let result = bastion("bastion.example.com", 22, "", None).validate(Lang::En);
    assert!(result.is_err());
}

#[test]
fn test_bastion_config_validation_invalid_port() {
    let result = bastion("bastion.example.com", 0, "user", None).validate(Lang::En);
    assert!(result.is_err());
}

#[test]
fn test_ssl_mode_default() {
    assert_eq!(default_ssl_mode(), SslMode::Required);
}

#[test]
fn test_pool_config_default() {
    let pool_config = PoolConfig::default();
    assert_eq!(pool_config.max_connections, 10);
    assert_eq!(pool_config.idle_timeout, 300);
}

#[test]
fn test_pool_config_default_when_missing() {
    let config = config(None, None, vec![connection("test-no-pool", None, false)]);
    assert_eq!(config.connections[0].mysql.pool.max_connections, None);
    assert_eq!(config.connections[0].mysql.pool.idle_timeout, None);
    let resolved = config.connections[0].mysql.pool.resolve(None);
    assert_eq!(resolved.max_connections, 10);
    assert_eq!(resolved.idle_timeout, 300);
}

#[test]
fn test_default_bastion_config() {
    let mut override_conn = connection("connection-with-override", None, false);
    override_conn.bastion =
        Some(BastionSetting::Config(bastion("custom-bastion.example.com", 2222, "custom_user", None)));
    let config = config(
        Some(bastion("shared-bastion.example.com", 22, "shared_user", Some("/path/to/shared/key"))),
        None,
        vec![
            connection("connection-using-default", Some(BastionSetting::Toggle(true)), false),
            override_conn,
        ],
    );

    assert!(config.default_bastion.is_some());
    let default_bastion = config.default_bastion.as_ref().unwrap();
    assert_eq!(default_bastion.host, "shared-bastion.example.com");
    assert_eq!(default_bastion.user, "shared_user");

    let conn1 = &config.connections[0];
    assert_eq!(conn1.name, "connection-using-default");
    assert!(matches!(conn1.bastion, Some(BastionSetting::Toggle(true))));
    let bastion1 = conn1.get_bastion(&config.default_bastion).unwrap();
    assert_eq!(bastion1.host, "shared-bastion.example.com");

    let conn2 = &config.connections[1];
    assert_eq!(conn2.name, "connection-with-override");
    assert!(conn2.bastion.is_some());
    let bastion2 = conn2.get_bastion(&config.default_bastion).unwrap();
    assert_eq!(bastion2.host, "custom-bastion.example.com");
    assert_eq!(bastion2.port, 2222);
}

#[test]
fn test_default_bastion_validation() {
    let config = config(Some(bastion("", 22, "user", None)), None, vec![connection("test", None, false)]);
    let result = config.validate(Lang::En);
    assert!(result.is_err());
}

#[test]
fn test_default_mysql_pool() {
    let mut custom = connection("conn-with-custom-pool", None, false);
    custom.mysql.pool = PoolConfigPartial { max_connections: Some(5), idle_timeout: Some(300) };
    let config = config(
        None,
        Some(PoolConfigPartial { max_connections: Some(20), idle_timeout: Some(600) }),
        vec![connection("conn-with-default-pool", None, false), custom],
    );

    assert!(config.default_mysql_pool.is_some());
    let default_pool = config.default_mysql_pool.as_ref().unwrap();
    assert_eq!(default_pool.max_connections, Some(20));
    assert_eq!(default_pool.idle_timeout, Some(600));

    let conn1 = &config.connections[0];
    assert_eq!(conn1.mysql.pool, PoolConfigPartial::default());

    let resolved = config.resolve_connections();
    assert_eq!(resolved[0].mysql.pool.max_connections, Some(20));
    assert_eq!(resolved[0].mysql.pool.idle_timeout, Some(600));
    let resolved_pool = resolved[0].mysql.pool.resolve(None);
    assert_eq!(resolved_pool.max_connections, 20);
    assert_eq!(resolved_pool.idle_timeout, 600);

    assert_eq!(resolved[1].mysql.pool.max_connections, Some(5));
    assert_eq!(resolved[1].mysql.pool.idle_timeout, Some(300));
}

#[test]
fn test_default_bastion_and_pool_combined() {
    let config = config(
        Some(bastion("bastion.example.com", 22, "bastionuser", None)),
        Some(PoolConfigPartial { max_connections: Some(15), idle_timeout: Some(500) }),
        vec![connection("conn-all-defaults", Some(BastionSetting::Toggle(true)), false)],
    );
    let resolved = config.resolve_connections();

    let conn = &resolved[0];
    assert!(conn.bastion.is_some());
    let bastion_host = match conn.bastion.as_ref().unwrap() {
        BastionSetting::Config(b) => &b.host,
        _ => panic!("a resolved bastion is always its own configuration"),
    };
    assert_eq!(bastion_host, "bastion.example.com");
    assert_eq!(conn.mysql.pool.max_connections, Some(15));
    assert_eq!(conn.mysql.pool.idle_timeout, Some(500));
}

#[test]
fn test_readonly_field_preserved_in_resolve_connections() {
    let config = config(
        Some(bastion("bastion.example.com", 22, "user", None)),
        None,
        vec![connection("readonly-with-default-bastion", Some(BastionSetting::Toggle(true)), true)],
    );
    let resolved = config.resolve_connections();
    assert!(resolved[0].readonly);
    assert!(resolved[0].bastion.is_some());
}

#[test]
fn test_bastion_false_skips_default() {
    let config = config(
        Some(bastion("bastion.example.com", 22, "bastionuser", None)),
        None,
        vec![connection("direct-connection", Some(BastionSetting::Toggle(false)), false)],
    );
    assert!(matches!(&config.connections[0].bastion, Some(BastionSetting::Toggle(false))));
    let b = config.connections[0].get_bastion(&config.default_bastion);
    assert!(b.is_none());
    let resolved = config.resolve_connections();
    assert!(resolved[0].bastion.is_none());
}

#[test]
fn test_bastion_true_applies_default() {
    let config = config(
        Some(bastion("bastion.example.com", 22, "bastionuser", None)),
        None,
        vec![connection("explicit-bastion-true", Some(BastionSetting::Toggle(true)), false)],
    );
    assert!(matches!(&config.connections[0].bastion, Some(BastionSetting::Toggle(true))));
    let b = config.connections[0].get_bastion(&config.default_bastion).unwrap();
    assert_eq!(b.host, "bastion.example.com");
    let resolved = config.resolve_connections();
    assert!(resolved[0].bastion.is_some());
    let resolved_host = match resolved[0].bastion.as_ref().unwrap() {
        BastionSetting::Config(b) => &b.host,
        _ => panic!("a resolved bastion is always its own configuration"),
    };
    assert_eq!(resolved_host, "bastion.example.com");
}

// Further cases of this library.

#[test]
fn bastion_true_without_default_connects_directly() {
    let config = config(None, None, vec![connection("c", Some(BastionSetting::Toggle(true)), false)]);
    assert!(config.connections[0].get_bastion(&config.default_bastion).is_none());
    assert!(config.resolve_connections()[0].bastion.is_none());
}

#[test]
fn pool_fields_merge_one_by_one() {
    let mut c = connection("partial", None, false);
    c.mysql.pool = PoolConfigPartial { max_connections: Some(3), idle_timeout: None };
    let config = config(
        None,
        Some(PoolConfigPartial { max_connections: Some(20), idle_timeout: Some(600) }),
        vec![c],
    );
    let resolved = config.resolve_connections();
    assert_eq!(resolved[0].mysql.pool, PoolConfigPartial { max_connections: Some(3), idle_timeout: Some(600) });
    let pool = resolved[0].mysql.pool.resolve(None);
    assert_eq!(pool, PoolConfig { max_connections: 3, idle_timeout: 600 });
}

#[test]
fn resolve_with_a_default_pool_argument() {
    let partial = PoolConfigPartial { max_connections: None, idle_timeout: Some(42) };
    let defaults = PoolConfigPartial { max_connections: Some(7), idle_timeout: Some(1) };
    let pool = partial.resolve(Some(&defaults));
    assert_eq!(pool.max_connections, 7);
    assert_eq!(pool.idle_timeout, 42);
    assert_eq!(default_max_connections(), 10);
    assert_eq!(default_idle_timeout(), 300);
}

#[test]
fn resolution_is_idempotent_on_concrete_values() {
    let config = config(
        Some(bastion("b.example.com", 22, "u", Some("~/.ssh/id"))),
        Some(PoolConfigPartial { max_connections: Some(4), idle_timeout: None }),
        vec![connection("x", Some(BastionSetting::Toggle(true)), true)],
    );
    let once = config.resolve_connections();
    let again = Config {
        default_bastion: None,
        default_mysql_pool: None,
        connections: once.clone(),
        settings: AppSettings::default(),
    }
    .resolve_connections();
    assert_eq!(once[0].mysql.pool, again[0].mysql.pool);
    assert_eq!(once[0].readonly, again[0].readonly);
    let host = |c: &ConnectionConfig| match &c.bastion {
        Some(BastionSetting::Config(b)) => Some(b.host.clone()),
        _ => None,
    };
    assert_eq!(host(&once[0]), host(&again[0]));
}

#[test]
fn validation_messages_name_the_field() {
    let err = validate_not_empty("", "MySQLホスト", Lang::En).unwrap_err();
    assert!(err.display().contains("MySQLホスト"));
    assert!(validate_not_empty("x", "MySQLホスト", Lang::En).is_ok());
    assert!(validate_port(0, "MySQLポート番号", Lang::Ja).is_err());
    assert!(validate_port(1, "MySQLポート番号", Lang::Ja).is_ok());
}

#[test]
fn permission_warning_only_for_modes_other_than_600() {
    assert!(permission_warning(0o100600, "/tmp/c.toml", Lang::En).is_none());
    let w = permission_warning(0o100644, "/tmp/c.toml", Lang::En).unwrap();
    assert!(w.contains("644"));
    assert!(w.contains("/tmp/c.toml"));
}
