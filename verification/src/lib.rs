//! A connector that routes an HTTP client's outbound connections through a
//! SOCKS proxy.
//!
//! This crate is the decision-making core of such a connector. It performs no
//! I/O and never suspends: every operation that touches the network is handed
//! to the caller as an action, and its outcome is handed back as a plain value.
//! What is verified here is what the connector decides at each point.

pub mod connector;
pub mod error;
pub mod proxy;
pub mod readiness;
pub mod target;
pub mod task;
pub mod tls;
pub mod uri;

pub use connector::SocksConnector;
pub use error::{Error, ErrorKind};
pub use proxy::{Auth, Negotiation, Protocol};
pub use readiness::Readiness;
pub use target::{RequestTarget, TargetAddress};
pub use task::{Action, ConnectOutcome, ConnectTask, Progress};
pub use tls::{Connected, Connecting, HttpsConnector, MaybeHttpsStream, Securing, TlsPolicy};
