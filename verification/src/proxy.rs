//! The proxy a connector tunnels through, and what it asks of it.

use vstd::prelude::*;
use crate::target::TargetAddress;

verus! {

/// A username and a password for the proxy.
#[derive(Debug, Clone, PartialEq, Eq, Hash)]
pub struct Auth {
    pub username: String,
    pub password: String,
}

/// The protocol that the proxy speaks, with what each one is told of the
/// client.
#[derive(Debug, Clone, PartialEq, Eq, Hash)]
pub enum Protocol {
    /// SOCKS4, which takes a user id.
    Socks4 { user_id: String },
    /// SOCKS5, which takes a username and a password, or negotiates
    /// anonymously where there are none.
    Socks5 { auth: Option<Auth> },
}

/// What the handshake is to negotiate: a tunnel to `target`, in `protocol`.
#[derive(Debug, Clone, PartialEq, Eq, Hash)]
pub struct Negotiation {
    pub target: TargetAddress,
    pub protocol: Protocol,
}

} // verus!
