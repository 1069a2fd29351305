use sqsh::config::{
    BastionConfig, BastionSetting, ConnectionConfig, MysqlConfig, Password, PoolConfigPartial, SslMode,
};
use sqsh::error::Error;
use sqsh::i18n::Lang;
use sqsh::selector::{
    connection_from_outcome, connection_from_selected_item, connection_items,
    format_connection_display, picker_init_error, select_connection, ConnectionItem, PickerOutcome,
};

fn create_test_connection(name: &str) -> ConnectionConfig {
    ConnectionConfig {
        name: name.to_string(),
        bastion: None,
        mysql: MysqlConfig {
            host: "localhost".to_string(),
            port: 3306,
            database: "test".to_string(),
            user: "testuser".to_string(),
            password: Password::from("testpass".to_string()),
            timeout: 10,
            ssl_mode: SslMode::Disabled,
            pool: PoolConfigPartial::default(),
        },
        readonly: false,
    }
}

fn create_test_connection_with_bastion(name: &str) -> ConnectionConfig {
    ConnectionConfig {
        name: name.to_string(),
        bastion: Some(BastionSetting::Config(BastionConfig {
            host: "bastion.example.com".to_string(),
            port: 22,
            user: "bastionuser".to_string(),
            key_path: Some("~/.ssh/id_rsa".to_string()),
        })),
        mysql: MysqlConfig {
            host: "mysql.internal".to_string(),
            port: 3306,
            database: "test".to_string(),
            user: "testuser".to_string(),
            password: Password::from("testpass".to_string()),
            timeout: 10,
            ssl_mode: SslMode::Disabled,
            pool: PoolConfigPartial::default(),
        },
        readonly: false,
    }
}

#[test]
fn test_select_connection_empty() {
    let connections = vec![];
    let result = select_connection(&connections, Lang::En, |_, _| -> Result<PickerOutcome, Error> {
        panic!("the picker must not open without connections")
    });
    assert!(result.is_err());

    let err = result.err().unwrap();
    assert!(err.display().contains("接続先が定義されていません"));
}

#[test]
fn test_connection_display_format_direct() {
    let conn = create_test_connection("test-connection");
    let display = format_connection_display(&conn);
    assert_eq!(display, "test-connection");
}

#[test]
fn test_connection_display_format_with_bastion() {
    let conn = create_test_connection_with_bastion("prod-connection");
    let display = format_connection_display(&conn);
    assert_eq!(display, "prod-connection");
}

#[test]
fn test_skim_item_conversion() {
    let connections = [
        create_test_connection("conn1"),
        create_test_connection("conn2"),
        create_test_connection("conn3"),
    ];

    let items: Vec<String> = connections.iter().map(format_connection_display).collect();

    assert_eq!(items.len(), 3);
    assert!(items[0].starts_with("conn1"));
    assert!(items[1].starts_with("conn2"));
    assert!(items[2].starts_with("conn3"));
}

#[test]
fn test_connection_item_downcast_uses_index() {
    let connections = [create_test_connection("conn1"), create_test_connection("conn2")];

    let selected = ConnectionItem { index: 1, display: format_connection_display(&connections[1]) };

    let found = connection_from_selected_item(&selected, &connections);

    assert!(found.is_ok());
    assert_eq!(found.unwrap().name, "conn2");
}

#[test]
fn test_connection_selection_handles_prefix_names() {
    let connections = [create_test_connection("prod"), create_test_connection("prod-readonly")];

    let selected = ConnectionItem { index: 1, display: format_connection_display(&connections[1]) };

    let found = connection_from_selected_item(&selected, &connections);

    assert!(found.is_ok());
    assert_eq!(found.unwrap().name, "prod-readonly");
}

// Further cases of this library.

#[test]
fn the_picker_sees_every_connection_and_the_prompt() {
    let connections = vec![create_test_connection("a"), create_test_connection("b")];
    let result = select_connection(&connections, Lang::En, |items, prompt| {
        assert_eq!(items.len(), 2);
        assert_eq!(items[1].index, 1);
        assert_eq!(items[1].display, "b");
        assert_eq!(prompt, "Select connection > ");
        Ok(PickerOutcome::Selected(ConnectionItem { index: 0, display: "a".to_string() }))
    });
    assert_eq!(result.unwrap().name, "a");
}

#[test]
fn each_picker_answer_has_its_meaning() {
    let connections = vec![create_test_connection("a")];
    let msg = |o: PickerOutcome| connection_from_outcome(Ok(o), &connections).err().unwrap().display();
    assert_eq!(msg(PickerOutcome::NoOutput), "接続先の選択がキャンセルされました");
    assert_eq!(msg(PickerOutcome::Aborted), "接続先の選択がキャンセルされました");
    assert_eq!(msg(PickerOutcome::NoneSelected), "接続先が選択されていません");
    assert_eq!(msg(PickerOutcome::Unrecognized), "選択された接続先の情報を復元できません");
    assert_eq!(
        msg(PickerOutcome::Selected(ConnectionItem { index: 5, display: String::new() })),
        "選択された接続先が見つかりません"
    );
    let failed = connection_from_outcome(Err(picker_init_error("bad height", Lang::En)), &connections);
    assert_eq!(failed.err().unwrap().display(), "skim initialization error: bad height");
    let items = connection_items(&connections);
    assert_eq!(items.len(), 1);
}
