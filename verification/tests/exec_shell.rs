use sshbridge::params::{SshConnectParams, SshMode};
use sshbridge::terminal::{
    build_exec_command, exec_check_deadline, exec_completion, exec_on_event, exec_session_start,
    keepalive_due, keepalive_probe, shell_channel_action, shell_text_input, ChannelEvent,
    ClientCommand, ExecFlow, ShellChannelAction, ShellInput, EXEC_TIMEOUT_EXIT_CODE,
    SHELL_KEEPALIVE_IDLE_MS,
};

fn exec_params(
    command: Option<&str>,
    workdir: Option<&str>,
    env: Option<Vec<(&str, &str)>>,
    shell: Option<&str>,
) -> SshConnectParams {
    SshConnectParams {
        server_id: None,
        host: Some("h".to_string()),
        port: Some(22),
        username: Some("u".to_string()),
        password: Some("p".to_string()),
        mode: SshMode::Exec,
        term: "xterm-256color".to_string(),
        cols: 80,
        rows: 24,
        command: command.map(|c| c.to_string()),
        workdir: workdir.map(|w| w.to_string()),
        env: env.map(|e| {
            e.into_iter().map(|(k, v)| (k.to_string(), v.to_string())).collect()
        }),
        shell: shell.map(|s| s.to_string()),
        timeout_secs: 60,
    }
}

#[test]
fn exec_command_combines_workdir_env_and_command() {
    let p = exec_params(
        Some("ls -la"),
        Some("/srv"),
        Some(vec![("LANG", "C.UTF-8"), ("MODE", "1")]),
        None,
    );
    assert_eq!(
        build_exec_command(&p),
        "bash -c 'cd /srv && export LANG=C.UTF-8 && export MODE=1 && ls -la'"
    );
}

#[test]
fn exec_command_respects_the_chosen_shell() {
    let p = exec_params(Some("echo hi"), None, None, Some("zsh"));
    assert_eq!(build_exec_command(&p), "zsh -c 'echo hi'");
}

#[test]
fn exec_command_with_nothing_is_an_empty_script() {
    let p = exec_params(None, None, None, None);
    assert_eq!(build_exec_command(&p), "bash -c ''");
}

#[test]
fn exec_timeout_yields_sentinel_code_and_timeout_flag() {
    // A one-second budget against a command that sleeps five seconds: the
    // deadline check fires on the first poll past the budget, and the
    // completion message carries the sentinel code and the timeout flag.
    let mut s = exec_session_start(1);
    assert_eq!(s.timeout_ms, 1000);

    assert!(exec_check_deadline(&mut s, 0).is_none());
    assert!(exec_check_deadline(&mut s, 999).is_none());
    assert!(s.exit_code.is_none());

    let (flow, fwd) = exec_on_event(
        &mut s,
        ChannelEvent::Data { data: b"partial".to_vec() },
    );
    assert_eq!(flow, ExecFlow::Continue);
    assert_eq!(fwd.as_deref(), Some("partial"));

    let notice = exec_check_deadline(&mut s, 1000).expect("the budget is spent");
    assert_eq!(notice, "\n[command timed out after 1 seconds]\n");
    assert_eq!(s.exit_code, Some(EXEC_TIMEOUT_EXIT_CODE));

    let done = exec_completion(s, 1000);
    assert_eq!(done.exit_code, EXEC_TIMEOUT_EXIT_CODE);
    assert_eq!(done.exit_code, 124);
    assert!(done.timeout);
    assert_eq!(done.output, "partial");
}

#[test]
fn exec_collects_output_and_exit_code() {
    let mut s = exec_session_start(60);
    exec_on_event(&mut s, ChannelEvent::Data { data: b"out ".to_vec() });
    exec_on_event(&mut s, ChannelEvent::ExtendedData { data: b"err ".to_vec(), ext: 1 });
    exec_on_event(&mut s, ChannelEvent::ExtendedData { data: b"ignored".to_vec(), ext: 2 });
    let (flow, fwd) = exec_on_event(&mut s, ChannelEvent::ExitStatus { exit_status: 3 });
    assert_eq!(flow, ExecFlow::Continue);
    assert!(fwd.is_none());
    let (flow2, _) = exec_on_event(&mut s, ChannelEvent::Eof);
    assert_eq!(flow2, ExecFlow::Finished);

    let done = exec_completion(s, 50);
    assert_eq!(done.exit_code, 3);
    assert_eq!(done.output, "out err ");
    assert!(!done.timeout);
}

#[test]
fn exec_decodes_bytes_lossily() {
    let mut s = exec_session_start(60);
    let (_, fwd) = exec_on_event(&mut s, ChannelEvent::Data { data: vec![0xff, b'a'] });
    assert_eq!(fwd.as_deref(), Some("\u{FFFD}a"), "invalid bytes become the replacement mark");
    let done = exec_completion(s, 1);
    assert_eq!(done.output, "\u{FFFD}a");
}

#[test]
fn exec_without_exit_status_reports_zero() {
    let s = exec_session_start(60);
    let done = exec_completion(s, 1);
    assert_eq!(done.exit_code, 0);
    assert!(!done.timeout);
}

#[test]
fn client_text_frames_drive_the_shell() {
    let a = shell_text_input(Some(ClientCommand::Resize { cols: 120, rows: 40 }), String::new());
    assert_eq!(a, ShellInput::Resize { cols: 120, rows: 40 });

    let b = shell_text_input(Some(ClientCommand::Input { data: "ls\n".to_string() }), String::new());
    assert_eq!(b, ShellInput::Write { data: "ls\n".to_string() });

    let c = shell_text_input(None, "plain text\n".to_string());
    assert_eq!(
        c,
        ShellInput::Write { data: "plain text\n".to_string() },
        "an unrecognized frame is raw input"
    );
}

#[test]
fn channel_events_drive_the_relay() {
    let f = shell_channel_action(ChannelEvent::Data { data: b"abc".to_vec() });
    assert_eq!(f, ShellChannelAction::Forward { data: b"abc".to_vec() });
    let g = shell_channel_action(ChannelEvent::ExtendedData { data: b"e".to_vec(), ext: 1 });
    assert_eq!(g, ShellChannelAction::Forward { data: b"e".to_vec() });
    assert_eq!(shell_channel_action(ChannelEvent::Eof), ShellChannelAction::CloseNotify);
    assert_eq!(
        shell_channel_action(ChannelEvent::ExitStatus { exit_status: 0 }),
        ShellChannelAction::CloseNotify
    );
    assert_eq!(shell_channel_action(ChannelEvent::Closed), ShellChannelAction::CloseNotify);
    assert_eq!(shell_channel_action(ChannelEvent::Other), ShellChannelAction::Ignore);
}

#[test]
fn keepalive_fires_after_the_idle_window() {
    assert!(!keepalive_due(0, SHELL_KEEPALIVE_IDLE_MS));
    assert!(keepalive_due(0, SHELL_KEEPALIVE_IDLE_MS + 1));
    assert_eq!(keepalive_probe(), b"\x1b[5n".to_vec(), "the probe is a device status report");
}
