//! Configuration records for the transport layer.
//!
//! The transport itself (sockets, rooms, reconnection) lives outside the
//! verified core and only drives the engine through its operations; these
//! records are the plain values a host program is configured with.

use vstd::prelude::*;

verus! {

/// How a client reaches a server: a TCP address or a local socket path,
/// plus the display name and stable identity it announces.
#[derive(Debug, Clone)]
pub struct ClientConfig {
    pub tcp_addr: Option<String>,
    pub unix_path: Option<String>,
    pub name: String,
    pub client_id: String,
}

/// Which listeners a server opens.
#[derive(Debug, Clone, Copy, PartialEq, Eq, Structural)]
pub enum ListenMode {
    TcpOnly,
    UnixOnly,
    Both,
}

/// A server's listening addresses, optional log destination, and listener
/// choice.
#[derive(Debug, Clone)]
pub struct ServerConfig {
    pub tcp_addr: String,
    pub unix_path: String,
    pub log_path: Option<String>,
    pub listen_mode: ListenMode,
}

} // verus!
