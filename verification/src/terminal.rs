//! The terminal bridge: the interactive-shell relay decisions with their
//! keep-alive rule, and the single-command exec state machine with its
//! wall-clock timeout.
//!
//! The relay loop itself runs outside the library, multiplexing the client
//! transport, the backend channel and a periodic timer; every decision it
//! takes — what a client frame means, what a channel event does, when the
//! keep-alive probe is due, when the exec deadline has passed, and what the
//! completion message carries — is a function here.

use vstd::prelude::*;
use crate::params::SshConnectParams;
use crate::strutil::{dec_digits, join_with, lemma_join_step};

verus! {

/// Milliseconds of client silence after which the keep-alive probe is sent.
pub const SHELL_KEEPALIVE_IDLE_MS: u64 = 50 * 1000;

/// The exit code reported when an exec command hits its wall-clock timeout.
pub const EXEC_TIMEOUT_EXIT_CODE: u32 = 124;

/// One structured client frame of the terminal protocol.
#[derive(Debug, PartialEq)]
pub enum ClientCommand {
    Input { data: String },
    Resize { cols: u32, rows: u32 },
}

/// One server frame of the terminal protocol.
#[derive(Debug, PartialEq)]
pub enum ServerMessage {
    Connected,
    Data { data: String },
    Error { message: String },
    Closed,
}

/// One backend channel event, as the relay loop reads them: data on the
/// main or the extended stream, end-of-stream, an exit status, the channel
/// gone, or anything else.
#[derive(Debug, PartialEq)]
pub enum ChannelEvent {
    Data { data: Vec<u8> },
    ExtendedData { data: Vec<u8>, ext: u32 },
    Eof,
    ExitStatus { exit_status: u32 },
    Closed,
    Other,
}

/// What a client text frame asks of the shell relay.
#[derive(Debug, PartialEq)]
pub enum ShellInput {
    /// Write these characters to the channel.
    Write { data: String },
    /// Propagate a new terminal geometry.
    Resize { cols: u32, rows: u32 },
}

/// What a client text frame means: a structured resize or input command is
/// obeyed; a frame that parses as neither is written through as raw input,
/// which keeps naive clients working.
pub fn shell_text_input(parsed: Option<ClientCommand>, raw: String) -> (a: ShellInput)
    ensures
        match parsed {
            Some(ClientCommand::Resize { cols, rows }) => a == (ShellInput::Resize { cols, rows }),
            Some(ClientCommand::Input { data }) => a matches ShellInput::Write { data: d } && d@
                == data@,
            None => a matches ShellInput::Write { data: d } && d@ == raw@,
        },
{
    match parsed {
        Some(ClientCommand::Resize { cols, rows }) => ShellInput::Resize { cols, rows },
        Some(ClientCommand::Input { data }) => ShellInput::Write { data },
        None => ShellInput::Write { data: raw },
    }
}

/// What the shell relay does with a channel event.
#[derive(Debug, PartialEq)]
pub enum ShellChannelAction {
    /// Forward these bytes to the client as a binary frame.
    Forward { data: Vec<u8> },
    /// Tell the client the session closed, then stop the relay.
    CloseNotify,
    /// Nothing.
    Ignore,
}

/// What a channel event does to the shell relay: bytes on either stream are
/// forwarded; end-of-stream, an exit status or a vanished channel close the
/// session; everything else is ignored.
pub fn shell_channel_action(ev: ChannelEvent) -> (a: ShellChannelAction)
    ensures
        match ev {
            ChannelEvent::Data { data } => a matches ShellChannelAction::Forward { data: d } && d@
                == data@,
            ChannelEvent::ExtendedData { data, ext } => a matches ShellChannelAction::Forward {
                data: d,
            } && d@ == data@,
            ChannelEvent::Eof => a == ShellChannelAction::CloseNotify,
            ChannelEvent::ExitStatus { exit_status } => a == ShellChannelAction::CloseNotify,
            ChannelEvent::Closed => a == ShellChannelAction::CloseNotify,
            ChannelEvent::Other => a == ShellChannelAction::Ignore,
        },
{
    match ev {
        ChannelEvent::Data { data } => ShellChannelAction::Forward { data },
        ChannelEvent::ExtendedData { data, ext: _ } => ShellChannelAction::Forward { data },
        ChannelEvent::Eof => ShellChannelAction::CloseNotify,
        ChannelEvent::ExitStatus { exit_status: _ } => ShellChannelAction::CloseNotify,
        ChannelEvent::Closed => ShellChannelAction::CloseNotify,
        ChannelEvent::Other => ShellChannelAction::Ignore,
    }
}

/// Whether the client has been silent long enough for a keep-alive probe.
pub fn keepalive_due(last_activity_ms: u64, now_ms: u64) -> (r: bool)
    requires
        last_activity_ms <= now_ms,
    ensures
        r == (now_ms - last_activity_ms > SHELL_KEEPALIVE_IDLE_MS),
{
    now_ms - last_activity_ms > SHELL_KEEPALIVE_IDLE_MS
}

/// The keep-alive probe: a device-status-report request, which the remote
/// terminal answers invisibly, defeating server-side idle timeouts without
/// touching the display.
pub fn keepalive_probe() -> (v: Vec<u8>)
    ensures
        v@ == seq![0x1bu8, 0x5bu8, 0x35u8, 0x6eu8],
{
    let mut v: Vec<u8> = Vec::new();
    v.push(0x1b);
    v.push(0x5b);
    v.push(0x35);
    v.push(0x6e);
    proof {
        assert(v@ =~= seq![0x1bu8, 0x5bu8, 0x35u8, 0x6eu8]);
    }
    v
}

/// What `String::from_utf8_lossy` decodes from these bytes.
pub uninterp spec fn lossy_utf8(bytes: Seq<u8>) -> Seq<char>;

/// Relies on String::from_utf8_lossy: the decoding depends on the bytes
/// alone.
#[verifier::external_body]
fn utf8_lossy(data: &[u8]) -> (r: String)
    ensures
        r@ == lossy_utf8(data@),
{
    String::from_utf8_lossy(data).into_owned()
}

/// The shell the exec command runs under.
pub open spec fn exec_shell(p: SshConnectParams) -> Seq<char> {
    match p.shell {
        Some(s) => s@,
        None => "bash"@,
    }
}

/// The export statements for the exec environment, one per variable.
pub open spec fn env_exports(env: Seq<(String, String)>) -> Seq<Seq<char>> {
    env.map_values(|kv: (String, String)| "export "@ + kv.0@ + "="@ + kv.1@)
}

/// The script parts of the exec invocation: change of working directory,
/// environment exports, then the command, each present only when given.
pub open spec fn exec_script_parts(p: SshConnectParams) -> Seq<Seq<char>> {
    (match p.workdir {
        Some(w) => seq!["cd "@ + w@],
        None => Seq::empty(),
    }) + (match p.env {
        Some(env) => env_exports(env@),
        None => Seq::empty(),
    }) + (match p.command {
        Some(c) => seq![c@],
        None => Seq::empty(),
    })
}

/// The whole shell invocation of an exec session.
pub open spec fn exec_command_spec(p: SshConnectParams) -> Seq<char> {
    exec_shell(p) + " -c '"@ + join_with(exec_script_parts(p), " && "@) + seq!['\'']
}

/// Build the single shell invocation of an exec session: the chosen shell
/// runs the working-directory change, the environment exports and the
/// command, joined by `&&`, inside one quoted script.
pub fn build_exec_command(params: &SshConnectParams) -> (s: String)
    ensures
        s@ == exec_command_spec(*params),
{
    let ghost gparts = exec_script_parts(*params);
    let mut parts: Vec<String> = Vec::new();
    match &params.workdir {
        Some(w) => {
            let mut p = String::from_str("cd ");
            p.append(w.as_str());
            parts.push(p);
        },
        None => {},
    }
    let ghost after_wd = parts@.map_values(|p: String| p@);
    match &params.env {
        Some(env) => {
            let ghost genv = env@;
            let mut i: usize = 0;
            while i < env.len()
                invariant
                    0 <= i <= genv.len(),
                    genv == env@,
                    parts@.map_values(|p: String| p@) =~= after_wd + env_exports(
                        genv.take(i as int),
                    ),
                decreases genv.len() - i,
            {
                let mut p = String::from_str("export ");
                p.append(env[i].0.as_str());
                p.append("=");
                p.append(env[i].1.as_str());
                parts.push(p);
                proof {
                    broadcast use Seq::lemma_push_map_commute;

                    assert(env_exports(genv.take(i + 1)) =~= env_exports(genv.take(i as int)).push(
                        "export "@ + genv[i as int].0@ + "="@ + genv[i as int].1@,
                    ));
                    assert(parts@.map_values(|q: String| q@) =~= after_wd + env_exports(
                        genv.take(i + 1),
                    ));
                }
                i = i + 1;
            }
            proof {
                assert(genv.take(genv.len() as int) =~= genv);
            }
        },
        None => {},
    }
    match &params.command {
        Some(c) => {
            parts.push(c.clone());
        },
        None => {},
    }
    proof {
        broadcast use Seq::lemma_push_map_commute;

        assert(parts@.map_values(|p: String| p@) =~= gparts);
    }
    let script = crate::strutil::join_strings(&parts, " && ");
    let mut s = match &params.shell {
        Some(sh) => sh.clone(),
        None => String::from_str("bash"),
    };
    s.append(" -c '");
    s.append(script.as_str());
    s.append("'");
    proof {
        reveal_strlit("'");
        assert("'"@ =~= seq!['\'']);
        assert(s@ =~= exec_command_spec(*params));
    }
    s
}

/// The running state of an exec session: the output gathered so far, the
/// exit code once one arrived, and the wall-clock budget.
pub struct ExecSession {
    pub output: String,
    pub exit_code: Option<u32>,
    pub timeout_ms: u64,
}

/// The wall-clock budget of an exec session, from the negotiated seconds.
pub fn exec_session_start(timeout_secs: u64) -> (s: ExecSession)
    ensures
        s.output@.len() == 0,
        s.exit_code is None,
        s.timeout_ms == if timeout_secs * 1000 <= u64::MAX {
            (timeout_secs * 1000) as u64
        } else {
            u64::MAX
        },
{
    let timeout_ms = match timeout_secs.checked_mul(1000) {
        Some(ms) => ms,
        None => u64::MAX,
    };
    ExecSession { output: String::new(), exit_code: None, timeout_ms }
}

/// Whether the relay keeps polling or finishes the session.
#[derive(Debug, PartialEq, Eq, Structural)]
pub enum ExecFlow {
    Continue,
    Finished,
}

/// The deadline check, made on every poll turn whether or not the backend
/// answered: once the elapsed wall-clock time reaches the budget, the exit
/// code becomes the timeout sentinel and the client is owed the returned
/// timeout notice; before that, nothing changes.
pub fn exec_check_deadline(s: &mut ExecSession, elapsed_ms: u64) -> (r: Option<String>)
    ensures
        r is Some <==> elapsed_ms >= old(s).timeout_ms,
        r matches Some(notice) ==> {
            &&& final(s).exit_code == Some(EXEC_TIMEOUT_EXIT_CODE)
            &&& final(s).output@ == old(s).output@
            &&& final(s).timeout_ms == old(s).timeout_ms
            &&& notice@ == "\n[command timed out after "@ + dec_digits(
                (old(s).timeout_ms / 1000) as nat,
            ) + " seconds]\n"@
        },
        r is None ==> *final(s) == *old(s),
{
    if elapsed_ms >= s.timeout_ms {
        s.exit_code = Some(EXEC_TIMEOUT_EXIT_CODE);
        let mut notice = String::from_str("\n[command timed out after ");
        let d = crate::strutil::u64_to_dec(s.timeout_ms / 1000);
        notice.append(d.as_str());
        notice.append(" seconds]\n");
        Some(notice)
    } else {
        None
    }
}

/// What one channel event does to an exec session: stdout and stderr bytes
/// are decoded, appended to the gathered output and forwarded at once; an
/// exit status is recorded; end-of-stream or a vanished channel finishes
/// the session; data on other extended streams, and anything else, changes
/// nothing.
pub fn exec_on_event(s: &mut ExecSession, ev: ChannelEvent) -> (r: (ExecFlow, Option<String>))
    ensures
        final(s).timeout_ms == old(s).timeout_ms,
        match ev {
            ChannelEvent::Data { data } => {
                &&& r.0 == ExecFlow::Continue
                &&& r.1 matches Some(t) && t@ == lossy_utf8(data@)
                &&& final(s).output@ == old(s).output@ + lossy_utf8(data@)
                &&& final(s).exit_code == old(s).exit_code
            },
            ChannelEvent::ExtendedData { data, ext } => {
                &&& r.0 == ExecFlow::Continue
                &&& ext == 1 ==> {
                    &&& r.1 matches Some(t) && t@ == lossy_utf8(data@)
                    &&& final(s).output@ == old(s).output@ + lossy_utf8(data@)
                }
                &&& ext != 1 ==> r.1 is None && final(s).output@ == old(s).output@
                &&& final(s).exit_code == old(s).exit_code
            },
            ChannelEvent::ExitStatus { exit_status } => {
                &&& r.0 == ExecFlow::Continue
                &&& r.1 is None
                &&& final(s).exit_code == Some(exit_status)
                &&& final(s).output@ == old(s).output@
            },
            ChannelEvent::Eof => r.0 == ExecFlow::Finished && r.1 is None && *final(s) == *old(s),
            ChannelEvent::Closed => r.0 == ExecFlow::Finished && r.1 is None && *final(s) == *old(
                s,
            ),
            ChannelEvent::Other => r.0 == ExecFlow::Continue && r.1 is None && *final(s) == *old(
                s,
            ),
        },
{
    match ev {
        ChannelEvent::Data { data } => {
            let t = utf8_lossy(data.as_slice());
            s.output.append(t.as_str());
            (ExecFlow::Continue, Some(t))
        },
        ChannelEvent::ExtendedData { data, ext } => {
            if ext == 1 {
                let t = utf8_lossy(data.as_slice());
                s.output.append(t.as_str());
                (ExecFlow::Continue, Some(t))
            } else {
                (ExecFlow::Continue, None)
            }
        },
        ChannelEvent::ExitStatus { exit_status } => {
            s.exit_code = Some(exit_status);
            (ExecFlow::Continue, None)
        },
        ChannelEvent::Eof => (ExecFlow::Finished, None),
        ChannelEvent::Closed => (ExecFlow::Finished, None),
        ChannelEvent::Other => (ExecFlow::Continue, None),
    }
}

/// The one completion message of an exec session.
#[derive(Debug, PartialEq)]
pub struct ExecCompletion {
    pub exit_code: u32,
    pub output: String,
    pub timeout: bool,
}

/// Close an exec session into its completion message: the recorded exit
/// code (zero when none arrived), the whole gathered output, and whether
/// the wall clock ran out — in which case the code is the timeout sentinel,
/// since the deadline check recorded it.
pub fn exec_completion(s: ExecSession, elapsed_ms: u64) -> (c: ExecCompletion)
    ensures
        c.exit_code == match s.exit_code {
            Some(code) => code,
            None => 0u32,
        },
        c.output@ == s.output@,
        c.timeout == (elapsed_ms >= s.timeout_ms),
        elapsed_ms >= s.timeout_ms && s.exit_code == Some(EXEC_TIMEOUT_EXIT_CODE) ==> c.exit_code
            == EXEC_TIMEOUT_EXIT_CODE && c.timeout,
{
    let exit_code = match s.exit_code {
        Some(code) => code,
        None => 0,
    };
    ExecCompletion { exit_code, output: s.output, timeout: elapsed_ms >= s.timeout_ms }
}

} // verus!
