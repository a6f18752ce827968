//! One connect call through the proxy, as a task that the caller drives.
//!
//! A task is pending until it is ready, and it is ready once. While it is
//! pending it names the one operation it waits for; the caller performs that
//! operation and hands its outcome to [`ConnectTask::advance`]. The steps of a
//! call are strictly sequential: reach the proxy, then negotiate the tunnel.
//!
//! A task holds no stream. While an operation is under way its stream is
//! with whoever performs it, and a call that fails hands none out.

use vstd::prelude::*;
use http::Uri;
use crate::error::Error;
use crate::proxy::Negotiation;

verus! {

/// An established connection, with whether it passed through a proxy.
#[derive(Debug, PartialEq, Eq)]
pub struct ConnectOutcome<S> {
    pub stream: S,
    pub proxied: bool,
}

/// The operation that a pending task waits for.
#[derive(Debug, PartialEq, Eq)]
pub enum Action<S, C> {
    /// Have `connector` open a raw connection to `proxy_addr`.
    Reach { connector: C, proxy_addr: Uri },
    /// Run the proxy handshake for `request` over `stream`.
    Negotiate { stream: S, request: Negotiation },
}

/// A connect call that has not completed.
#[derive(Debug, PartialEq, Eq)]
pub enum ConnectTask {
    /// Waiting for the raw connection to the proxy. `request` is what the
    /// handshake will be asked for once it stands.
    Reaching { request: Negotiation },
    /// Waiting for the proxy handshake.
    Negotiating,
}

/// Where a connect call stands.
#[derive(Debug, PartialEq, Eq)]
pub enum Progress<S, C, D> {
    /// Not complete: the task, and the operation it waits for.
    Pending(ConnectTask, Action<S, C>),
    /// Complete, with the tunneled stream or the one error of the call.
    Ready(Result<ConnectOutcome<S>, Error<D>>),
}

impl ConnectTask {
    /// Where the call stands once the operation that `self` waits for has
    /// ended in `outcome`.
    ///
    /// A raw connection that stands is handed on to the handshake together
    /// with the request; one that fails ends the call in `Connector`. A
    /// handshake that succeeds ends the call with its stream, marked as
    /// proxied; one that fails ends the call in `Socks`.
    pub open spec fn spec_advance<S, C, D>(self, outcome: Result<S, D>) -> Progress<S, C, D> {
        match (self, outcome) {
            (ConnectTask::Reaching { request }, Ok(stream)) => Progress::Pending(
                ConnectTask::Negotiating,
                Action::Negotiate { stream, request },
            ),
            (ConnectTask::Reaching { .. }, Err(detail)) => Progress::Ready(
                Err(Error::Connector(detail)),
            ),
            (ConnectTask::Negotiating, Ok(stream)) => Progress::Ready(
                Ok(ConnectOutcome { stream, proxied: true }),
            ),
            (ConnectTask::Negotiating, Err(detail)) => Progress::Ready(Err(Error::Socks(detail))),
        }
    }

    /// Takes the outcome of the awaited operation and says where the call
    /// stands now.
    pub fn advance<S, C, D>(self, outcome: Result<S, D>) -> (r: Progress<S, C, D>)
        ensures
            r == self.spec_advance::<S, C, D>(outcome),
    {
        match self {
            ConnectTask::Reaching { request } => match outcome {
                Ok(stream) => Progress::Pending(
                    ConnectTask::Negotiating,
                    Action::Negotiate { stream, request },
                ),
                Err(detail) => Progress::Ready(Err(Error::Connector(detail))),
            },
            ConnectTask::Negotiating => match outcome {
                Ok(stream) => Progress::Ready(Ok(ConnectOutcome { stream, proxied: true })),
                Err(detail) => Progress::Ready(Err(Error::Socks(detail))),
            },
        }
    }
}

} // verus!
