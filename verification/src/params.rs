//! Connection-parameter negotiation of the two gateways.
//!
//! The first client frame of a session carries these parameters. They name
//! the backend either inline (host, port, username, credential) or by a
//! host-registry reference that the caller's own registry entry resolves;
//! the functions here decide how a registry record fills the parameters and
//! when the parameters are complete enough to attempt a connection.

use vstd::prelude::*;
use crate::errors::BridgeError;
use crate::strutil::dec_digits;

verus! {

/// Seconds without traffic before a terminal backend session is dropped.
pub const SHELL_INACTIVITY_TIMEOUT_SECS: u64 = 120;

/// Seconds without traffic before a file-transfer backend session is
/// dropped.
pub const SFTP_INACTIVITY_TIMEOUT_SECS: u64 = 300;

/// Seconds between protocol-level keep-alive probes of a backend session.
pub const KEEPALIVE_INTERVAL_SECS: u64 = 30;

/// The two terminal modes: an interactive shell, or one command executed
/// and reported.
#[derive(Debug, PartialEq, Eq, Structural, Clone, Copy)]
pub enum SshMode {
    Shell,
    Exec,
}

/// The default terminal type.
pub fn default_term() -> (t: String)
    ensures
        t@ == "xterm-256color"@,
{
    String::from_str("xterm-256color")
}

/// The default terminal width in columns.
pub fn default_cols() -> (c: u32)
    ensures
        c == 80,
{
    80
}

/// The default terminal height in rows.
pub fn default_rows() -> (r: u32)
    ensures
        r == 24,
{
    24
}

/// The default exec timeout in seconds.
pub fn default_timeout() -> (t: u64)
    ensures
        t == 60,
{
    60
}

/// The initial parameters of a terminal session.
pub struct SshConnectParams {
    pub server_id: Option<i64>,
    pub host: Option<String>,
    pub port: Option<u16>,
    pub username: Option<String>,
    pub password: Option<String>,
    pub mode: SshMode,
    pub term: String,
    pub cols: u32,
    pub rows: u32,
    pub command: Option<String>,
    pub workdir: Option<String>,
    pub env: Option<Vec<(String, String)>>,
    pub shell: Option<String>,
    pub timeout_secs: u64,
}

/// The initial parameters of a file-transfer session.
pub struct SftpConnectParams {
    pub server_id: Option<i64>,
    pub host: Option<String>,
    pub port: Option<u16>,
    pub username: Option<String>,
    pub password: Option<String>,
    pub private_key: Option<String>,
}

/// A fully resolved backend target: everything a connection attempt needs.
pub struct ResolvedTarget {
    pub host: String,
    pub port: u16,
    pub username: String,
    pub password: String,
}

/// Whether all four connection fields are present.
pub open spec fn fields_complete(
    host: Option<String>,
    port: Option<u16>,
    username: Option<String>,
    password: Option<String>,
) -> bool {
    host is Some && port is Some && username is Some && password is Some
}

fn resolve_fields(
    host: &Option<String>,
    port: &Option<u16>,
    username: &Option<String>,
    password: &Option<String>,
) -> (r: Result<ResolvedTarget, BridgeError>)
    ensures
        r is Ok <==> fields_complete(*host, *port, *username, *password),
        r matches Ok(t) ==> {
            &&& host matches Some(h) && t.host@ == h@
            &&& port matches Some(p) && t.port == p
            &&& username matches Some(u) && t.username@ == u@
            &&& password matches Some(w) && t.password@ == w@
        },
        r matches Err(e) ==> e matches BridgeError::Parameter(_),
{
    match (host, port, username, password) {
        (Some(h), Some(p), Some(u), Some(w)) => Ok(
            ResolvedTarget { host: h.clone(), port: *p, username: u.clone(), password: w.clone() },
        ),
        _ => Err(
            BridgeError::Parameter(
                String::from_str("the server connection details are incomplete"),
            ),
        ),
    }
}

/// Clip a registry port to the wire type; the registry stores it wider.
pub fn clip_port(port: i64) -> (p: u16)
    ensures
        0 <= port <= 65535 ==> p == port,
{
    if 0 <= port && port <= 65535 {
        port as u16
    } else {
        #[verifier::truncate]
        (port as u16)
    }
}

impl SshConnectParams {
    /// Fill the connection fields from the caller's registry record; what
    /// the record says replaces whatever the client sent inline.
    pub fn apply_server_record(
        &mut self,
        host: String,
        port: i64,
        username: String,
        password: Option<String>,
    )
        ensures
            final(self).host matches Some(h) && h@ == host@,
            final(self).port matches Some(p) && (0 <= port <= 65535 ==> p == port),
            final(self).username matches Some(u) && u@ == username@,
            match password {
                Some(w) => final(self).password matches Some(v) && v@ == w@,
                None => final(self).password is None,
            },
            final(self).server_id == old(self).server_id,
            final(self).mode == old(self).mode,
            final(self).term@ == old(self).term@,
            final(self).cols == old(self).cols,
            final(self).rows == old(self).rows,
            final(self).timeout_secs == old(self).timeout_secs,
    {
        self.host = Some(host);
        self.port = Some(clip_port(port));
        self.username = Some(username);
        self.password = password;
    }

    /// The complete backend target, or the parameter error that one of the
    /// four connection fields is missing.
    pub fn resolve_target(&self) -> (r: Result<ResolvedTarget, BridgeError>)
        ensures
            r is Ok <==> fields_complete(self.host, self.port, self.username, self.password),
            r matches Ok(t) ==> {
                &&& self.host matches Some(h) && t.host@ == h@
                &&& self.port matches Some(p) && t.port == p
                &&& self.username matches Some(u) && t.username@ == u@
                &&& self.password matches Some(w) && t.password@ == w@
            },
            r matches Err(e) ==> e matches BridgeError::Parameter(_),
    {
        resolve_fields(&self.host, &self.port, &self.username, &self.password)
    }
}

impl SftpConnectParams {
    /// Fill the connection fields from the caller's registry record; what
    /// the record says replaces whatever the client sent inline.
    pub fn apply_server_record(
        &mut self,
        host: String,
        port: i64,
        username: String,
        password: Option<String>,
    )
        ensures
            final(self).host matches Some(h) && h@ == host@,
            final(self).port matches Some(p) && (0 <= port <= 65535 ==> p == port),
            final(self).username matches Some(u) && u@ == username@,
            match password {
                Some(w) => final(self).password matches Some(v) && v@ == w@,
                None => final(self).password is None,
            },
            final(self).server_id == old(self).server_id,
            match old(self).private_key {
                Some(ref k) => final(self).private_key matches Some(v) && v@ == k@,
                None => final(self).private_key is None,
            },
    {
        self.host = Some(host);
        self.port = Some(clip_port(port));
        self.username = Some(username);
        self.password = password;
    }

    /// The complete backend target, or the parameter error that one of the
    /// four connection fields is missing.
    pub fn resolve_target(&self) -> (r: Result<ResolvedTarget, BridgeError>)
        ensures
            r is Ok <==> fields_complete(self.host, self.port, self.username, self.password),
            r matches Ok(t) ==> {
                &&& self.host matches Some(h) && t.host@ == h@
                &&& self.port matches Some(p) && t.port == p
                &&& self.username matches Some(u) && t.username@ == u@
                &&& self.password matches Some(w) && t.password@ == w@
            },
            r matches Err(e) ==> e matches BridgeError::Parameter(_),
    {
        resolve_fields(&self.host, &self.port, &self.username, &self.password)
    }
}

/// The `host:port` address a connection is dialled with.
pub fn session_address(host: &str, port: u16) -> (s: String)
    ensures
        s@ == host@ + seq![':'] + dec_digits(port as nat),
{
    let mut s = String::from_str(host);
    s.append(":");
    let d = crate::strutil::u64_to_dec(port as u64);
    s.append(d.as_str());
    proof {
        reveal_strlit(":");
        assert(":"@ =~= seq![':']);
    }
    s
}

/// Gate on the session's identity: a bridge only serves a logged-in caller.
pub fn require_login(user_id: Option<i64>) -> (r: Result<i64, BridgeError>)
    ensures
        r is Ok <==> user_id is Some,
        r matches Ok(id) ==> user_id == Some(id),
        r matches Err(e) ==> e matches BridgeError::Authorization(_),
{
    match user_id {
        Some(id) => Ok(id),
        None => Err(BridgeError::Authorization(String::from_str("not logged in"))),
    }
}

/// The failure when a host-registry reference names no record the caller
/// may use: absent and foreign records fail alike.
pub fn registry_lookup_failed() -> (e: BridgeError)
    ensures
        e matches BridgeError::Authorization(_),
{
    BridgeError::Authorization(
        String::from_str("the server does not exist or is not yours to use"),
    )
}

} // verus!
