use sshbridge::errors::BridgeError;
use sshbridge::params::{
    default_cols, default_rows, default_term, default_timeout, require_login,
    registry_lookup_failed, session_address, SftpConnectParams, SshConnectParams, SshMode,
    KEEPALIVE_INTERVAL_SECS, SFTP_INACTIVITY_TIMEOUT_SECS, SHELL_INACTIVITY_TIMEOUT_SECS,
};

fn bare_ssh_params() -> SshConnectParams {
    SshConnectParams {
        server_id: None,
        host: None,
        port: None,
        username: None,
        password: None,
        mode: SshMode::Shell,
        term: default_term(),
        cols: default_cols(),
        rows: default_rows(),
        command: None,
        workdir: None,
        env: None,
        shell: None,
        timeout_secs: default_timeout(),
    }
}

#[test]
fn the_defaults_match_the_protocol() {
    assert_eq!(default_term(), "xterm-256color");
    assert_eq!(default_cols(), 80);
    assert_eq!(default_rows(), 24);
    assert_eq!(default_timeout(), 60);
    assert_eq!(SHELL_INACTIVITY_TIMEOUT_SECS, 120);
    assert_eq!(SFTP_INACTIVITY_TIMEOUT_SECS, 300);
    assert_eq!(KEEPALIVE_INTERVAL_SECS, 30);
}

#[test]
fn incomplete_parameters_are_a_parameter_error() {
    let p = bare_ssh_params();
    assert!(matches!(p.resolve_target(), Err(BridgeError::Parameter(_))));

    let mut q = bare_ssh_params();
    q.host = Some("h".to_string());
    q.port = Some(22);
    q.username = Some("u".to_string());
    assert!(matches!(q.resolve_target(), Err(BridgeError::Parameter(_))), "no credential yet");

    q.password = Some("pw".to_string());
    let t = q.resolve_target().expect("all four fields are present");
    assert_eq!(t.host, "h");
    assert_eq!(t.port, 22);
    assert_eq!(t.username, "u");
    assert_eq!(t.password, "pw");
}

#[test]
fn a_registry_record_fills_the_parameters() {
    let mut p = bare_ssh_params();
    p.password = Some("inline".to_string());
    p.apply_server_record("db1".to_string(), 2222, "admin".to_string(), Some("pw".to_string()));
    let t = p.resolve_target().unwrap();
    assert_eq!(t.host, "db1");
    assert_eq!(t.port, 2222);
    assert_eq!(t.username, "admin");
    assert_eq!(t.password, "pw", "the record replaces the inline credential");
}

#[test]
fn a_record_without_credential_fails_closed() {
    let mut p = bare_ssh_params();
    p.password = Some("inline".to_string());
    p.apply_server_record("db1".to_string(), 22, "admin".to_string(), None);
    assert!(p.resolve_target().is_err());
}

#[test]
fn sftp_parameters_resolve_the_same_way() {
    let mut p = SftpConnectParams {
        server_id: Some(9),
        host: None,
        port: None,
        username: None,
        password: None,
        private_key: None,
    };
    assert!(p.resolve_target().is_err());
    p.apply_server_record("fs".to_string(), 22, "u".to_string(), Some("pw".to_string()));
    let t = p.resolve_target().unwrap();
    assert_eq!(t.host, "fs");
    assert_eq!(p.server_id, Some(9));
}

#[test]
fn addresses_join_host_and_port() {
    assert_eq!(session_address("10.0.0.5", 22), "10.0.0.5:22");
    assert_eq!(session_address("example.org", 65535), "example.org:65535");
}

#[test]
fn sessions_need_a_logged_in_caller() {
    assert_eq!(require_login(Some(42)).unwrap(), 42);
    assert!(matches!(require_login(None), Err(BridgeError::Authorization(_))));
    assert!(matches!(registry_lookup_failed(), BridgeError::Authorization(_)));
}

#[test]
fn error_frames_carry_their_prefix_and_payload() {
    assert_eq!(
        BridgeError::Parameter("missing host".to_string()).message(),
        "parameter error: missing host"
    );
    assert_eq!(BridgeError::Connect("refused".to_string()).message(), "connect failed: refused");
    assert_eq!(BridgeError::Auth("denied".to_string()).message(), "authentication failed: denied");
    assert_eq!(
        BridgeError::Channel("no pty".to_string()).message(),
        "channel error: no pty"
    );
    assert_eq!(BridgeError::NoActiveUpload.message(), "no active upload");
}
