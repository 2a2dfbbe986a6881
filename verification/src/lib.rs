//! Verified core of a browser-reachable SSH/SFTP gateway.
//!
//! The crate holds the decision logic of the gateway: connection-parameter
//! negotiation, the terminal and exec bridging state machines, the
//! file-transfer command protocol with its chunked streaming and upload
//! lifecycle, and the bounded buffer-pool resource model. The surrounding
//! asynchronous plumbing (sockets, the SSH client, the database) lives
//! outside the library and drives these functions as events arrive.

pub mod chunks;
pub mod deploy_model;
pub mod editable;
pub mod errors;
pub mod pool;
pub mod params;
pub mod paths;
pub mod server_model;
pub mod strutil;
pub mod terminal;
pub mod transfer;
pub mod user_model;
