use sshbridge::server_model::{
    merge_server_update, new_server_record, page_window, sql_placeholders, AuthType,
    OperationType, RemoteServer, ServerResponse, UpdateServerRequest, DEFAULT_PAGE,
    DEFAULT_PAGE_SIZE, DEFAULT_SSH_PORT,
};

fn server(tags: Option<&str>) -> RemoteServer {
    RemoteServer {
        id: 1,
        user_id: 2,
        name: "box".to_string(),
        host: "10.0.0.5".to_string(),
        port: 22,
        username: "root".to_string(),
        auth_type: "password".to_string(),
        password: Some("SECRET-REDACTED".to_string()),
        private_key: None,
        description: None,
        tags: tags.map(|t| t.to_string()),
        created_at: "2026-01-01".to_string(),
        updated_at: "2026-01-02".to_string(),
        last_connected_at: None,
        is_active: 1,
        created_by_username: Some("alice".to_string()),
        updated_by_username: None,
        group_id: None,
        group_name: None,
    }
}

#[test]
fn auth_type_round_trips_through_its_storage_text() {
    assert_eq!(AuthType::Password.to_string(), "password");
    assert_eq!(AuthType::Key.to_string(), "key");
    assert_eq!(AuthType::from("key".to_string()), AuthType::Key);
    assert_eq!(AuthType::from("password".to_string()), AuthType::Password);
    assert_eq!(
        AuthType::from("anything else".to_string()),
        AuthType::Password,
        "unknown storage text reads as the password kind"
    );
}

#[test]
fn operation_types_render_their_storage_text() {
    assert_eq!(OperationType::Create.to_string(), "create");
    assert_eq!(OperationType::Update.to_string(), "update");
    assert_eq!(OperationType::Delete.to_string(), "delete");
    assert_eq!(OperationType::Connect.to_string(), "connect");
    assert_eq!(OperationType::Disconnect.to_string(), "disconnect");
}

#[test]
fn responses_parse_their_tags() {
    let r = ServerResponse::from(server(Some(r#"["prod","db"]"#)));
    assert_eq!(r.tags, vec!["prod".to_string(), "db".to_string()]);
    assert_eq!(r.id, 1);
    assert_eq!(r.host, "10.0.0.5");
}

#[test]
fn malformed_or_absent_tags_read_as_empty() {
    assert!(ServerResponse::from(server(Some("not json"))).tags.is_empty());
    assert!(ServerResponse::from(server(None)).tags.is_empty());
}

#[test]
fn paging_fills_defaults_and_counts_from_one() {
    let (page, size, offset) = page_window(None, None);
    assert_eq!(page, DEFAULT_PAGE);
    assert_eq!(size, DEFAULT_PAGE_SIZE);
    assert_eq!(offset, 0);

    let (page, size, offset) = page_window(Some(3), Some(25));
    assert_eq!((page, size, offset), (3, 25, 50));

    let (_, _, offset) = page_window(Some(0), Some(10));
    assert_eq!(offset, 0, "a page below one is clamped");
}

#[test]
fn updates_keep_absent_fields() {
    let req = UpdateServerRequest {
        name: Some("new name".to_string()),
        host: None,
        port: Some(2222),
        username: None,
        auth_type: Some(AuthType::Key),
        password: None,
        private_key: Some("KEY".to_string()),
        description: None,
        tags: Some(vec!["edge".to_string()]),
        group_id: None,
    };
    let merged = merge_server_update(server(Some(r#"["old"]"#)), req);
    assert_eq!(merged.name, "new name");
    assert_eq!(merged.host, "10.0.0.5");
    assert_eq!(merged.port, 2222);
    assert_eq!(merged.username, "root");
    assert_eq!(merged.auth_type, "key");
    assert_eq!(merged.password.as_deref(), Some("SECRET-REDACTED"));
    assert_eq!(merged.private_key.as_deref(), Some("KEY"));
    assert_eq!(merged.tags.as_deref(), Some(r#"["edge"]"#));
}

#[test]
fn creation_fills_defaults_and_renders_tags() {
    let r = new_server_record(None, None, Some(vec!["a".to_string()]));
    assert_eq!(r.port, DEFAULT_SSH_PORT);
    assert_eq!(r.auth_type, "password");
    assert_eq!(r.tags.as_deref(), Some(r#"["a"]"#));

    let r2 = new_server_record(Some(2022), Some(AuthType::Key), None);
    assert_eq!(r2.port, 2022);
    assert_eq!(r2.auth_type, "key");
    assert_eq!(r2.tags, None);
}

#[test]
fn placeholders_match_the_value_count() {
    assert_eq!(sql_placeholders(0), "");
    assert_eq!(sql_placeholders(1), "?");
    assert_eq!(sql_placeholders(3), "?, ?, ?");
}
