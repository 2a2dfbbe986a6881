//! Error kinds of the gateway.
//!
//! Every recoverable failure is reported to the client as a single error
//! frame carrying a message; the variants here separate the kinds so that
//! contracts can say exactly which failure a function reports and when.

use vstd::prelude::*;

verus! {

/// One failure of a gateway session or of a single file-transfer command.
#[derive(Debug, Clone, PartialEq, Eq)]
pub enum BridgeError {
    /// Malformed or missing fields in the initial parameters message.
    Parameter(String),
    /// The caller is not logged in, or the referenced host record is absent
    /// or not owned by the caller.
    Authorization(String),
    /// The backend connection could not be established.
    Connect(String),
    /// The backend rejected the credentials.
    Auth(String),
    /// Channel negotiation (pty, shell, exec, subsystem) was refused or the
    /// channel broke.
    Channel(String),
    /// A local or remote filesystem operation failed.
    Io(String),
    /// An upload is already active for this session.
    UploadConflict,
    /// A command that needs an active upload found none.
    NoActiveUpload,
    /// An inline read was requested for a file above the editing ceiling;
    /// carries the offending size in bytes.
    Oversize(u64),
    /// The active upload saw no chunk, end or cancel for longer than the
    /// idle threshold and was discarded.
    UploadIdleTimeout,
}

impl BridgeError {
    /// The fixed text of the variants that carry no payload, and the prefix
    /// put before the payload of the ones that do.
    pub open spec fn spec_prefix(&self) -> Seq<char> {
        match self {
            BridgeError::Parameter(_) => "parameter error: "@,
            BridgeError::Authorization(_) => "authorization error: "@,
            BridgeError::Connect(_) => "connect failed: "@,
            BridgeError::Auth(_) => "authentication failed: "@,
            BridgeError::Channel(_) => "channel error: "@,
            BridgeError::Io(_) => "io error: "@,
            BridgeError::UploadConflict => "an upload is already active; end or cancel it first"@,
            BridgeError::NoActiveUpload => "no active upload"@,
            BridgeError::Oversize(_) => "file too large for inline editing"@,
            BridgeError::UploadIdleTimeout => "upload timed out and was cancelled"@,
        }
    }

    /// The full message text: the prefix, followed by the payload where the
    /// variant carries one.
    pub open spec fn spec_message(&self) -> Seq<char> {
        match self {
            BridgeError::Parameter(s) => self.spec_prefix() + s@,
            BridgeError::Authorization(s) => self.spec_prefix() + s@,
            BridgeError::Connect(s) => self.spec_prefix() + s@,
            BridgeError::Auth(s) => self.spec_prefix() + s@,
            BridgeError::Channel(s) => self.spec_prefix() + s@,
            BridgeError::Io(s) => self.spec_prefix() + s@,
            _ => self.spec_prefix(),
        }
    }

    /// The message reported to the client for this error.
    pub fn message(&self) -> (m: String)
        ensures
            m@ == self.spec_message(),
    {
        match self {
            BridgeError::Parameter(s) => {
                let mut m = String::from_str("parameter error: ");
                m.append(s.as_str());
                m
            },
            BridgeError::Authorization(s) => {
                let mut m = String::from_str("authorization error: ");
                m.append(s.as_str());
                m
            },
            BridgeError::Connect(s) => {
                let mut m = String::from_str("connect failed: ");
                m.append(s.as_str());
                m
            },
            BridgeError::Auth(s) => {
                let mut m = String::from_str("authentication failed: ");
                m.append(s.as_str());
                m
            },
            BridgeError::Channel(s) => {
                let mut m = String::from_str("channel error: ");
                m.append(s.as_str());
                m
            },
            BridgeError::Io(s) => {
                let mut m = String::from_str("io error: ");
                m.append(s.as_str());
                m
            },
            BridgeError::UploadConflict => String::from_str(
                "an upload is already active; end or cancel it first",
            ),
            BridgeError::NoActiveUpload => String::from_str("no active upload"),
            BridgeError::Oversize(_) => String::from_str("file too large for inline editing"),
            BridgeError::UploadIdleTimeout => String::from_str(
                "upload timed out and was cancelled",
            ),
        }
    }
}

} // verus!
