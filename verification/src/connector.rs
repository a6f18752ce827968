//! The connector that tunnels through a SOCKS proxy.

use vstd::prelude::*;
use http::Uri;
use crate::error::Error;
use crate::proxy::{Negotiation, Protocol};
use crate::readiness::{forwarded, Readiness};
use crate::target::{has_host, resolve_uri, resolved, target_of};
use crate::task::{Action, ConnectOutcome, ConnectTask, Progress};
use crate::tls::{HttpsConnector, TlsPolicy};

verus! {

/// The description of a SOCKS proxy, with the connector that reaches it.
///
/// A connector is not changed by the calls made through it: each call takes
/// a connector of its own and owns all of its state.
#[derive(Debug, Clone, PartialEq, Eq, Hash)]
pub struct SocksConnector<C> {
    pub proxy_addr: Uri,
    pub protocol: Protocol,
    pub connector: C,
}

impl<C> SocksConnector<C> {
    /// Layers TLS over this connector, under `policy`.
    pub fn with_tls(self, policy: TlsPolicy) -> (r: HttpsConnector<Self>)
        ensures
            r.connector == self,
            r.policy == policy,
    {
        HttpsConnector { connector: self, policy }
    }

    /// Whether `r` is where a call to `target_addr` through `self` starts.
    ///
    /// A target that resolves to no address is ready at once, in
    /// `MissingHost`, and asks for no operation at all. Any other waits for
    /// the inner connector to reach the proxy, and holds for the handshake
    /// the resolved address together with the protocol of this connector.
    pub open spec fn starts<S, D>(self, target_addr: Uri, r: Progress<S, C, D>) -> bool {
        match resolved(target_of(target_addr)) {
            None => r == Progress::<S, C, D>::Ready(Err(Error::MissingHost)),
            Some(address) => {
                &&& r matches Progress::Pending(task, action)
                &&& task matches ConnectTask::Reaching { request }
                &&& request.target@ == address
                &&& request.protocol == self.protocol
                &&& action == Action::<S, C>::Reach {
                    connector: self.connector,
                    proxy_addr: self.proxy_addr,
                }
            },
        }
    }

    /// Starts a connect call to `target_addr`.
    pub fn call_async<S, D>(self, target_addr: Uri) -> (r: Progress<S, C, D>)
        ensures
            self.starts(target_addr, r),
    {
        match resolve_uri::<D>(&target_addr) {
            Err(e) => Progress::Ready(Err(e)),
            Ok(target) => Progress::Pending(
                ConnectTask::Reaching {
                    request: Negotiation { target, protocol: self.protocol },
                },
                Action::Reach { connector: self.connector, proxy_addr: self.proxy_addr },
            ),
        }
    }

    /// Forwards what the inner connector reports of its readiness. This
    /// connector is ready exactly when the inner one is, and a failure of the
    /// inner one is a `Connector` error of this one.
    pub fn poll_ready<D>(&self, inner: Readiness<D>) -> (r: Readiness<Error<D>>)
        ensures
            r == forwarded(inner),
    {
        match inner {
            Readiness::NotReady => Readiness::NotReady,
            Readiness::Ready(Ok(())) => Readiness::Ready(Ok(())),
            Readiness::Ready(Err(detail)) => Readiness::Ready(Err(Error::Connector(detail))),
        }
    }
}

/// A call to a target without a host, or with an empty one, is ready at
/// once, in `MissingHost`. It asks for no operation, so nothing is sent
/// anywhere on its behalf. A call to any other target is pending and asks
/// first for the proxy to be reached, at the address and through the inner
/// connector that the connector was made with.
pub proof fn lemma_missing_host_asks_for_nothing<S, C, D>(
    connector: SocksConnector<C>,
    target_addr: Uri,
    start: Progress<S, C, D>,
)
    requires
        connector.starts(target_addr, start),
    ensures
        !has_host(target_of(target_addr).host) ==> start == Progress::<S, C, D>::Ready(
            Err(Error::MissingHost),
        ),
        has_host(target_of(target_addr).host) ==> (start matches Progress::Pending(_, action)
            && action == Action::<S, C>::Reach {
            connector: connector.connector,
            proxy_addr: connector.proxy_addr,
        }),
{
}

/// The course of a call that has a host to go to, whatever its two
/// operations end in.
///
/// A proxy that cannot be reached ends the call in a `Connector` error with
/// the detail of the inner connector, and no handshake is asked for. Once the
/// proxy is reached, the handshake is asked for over that very stream, for
/// the resolved address and with the protocol and credentials that the
/// connector was made with. A handshake that fails ends the call in a `Socks`
/// error with the detail of the handshake, never in a `Connector` error. The
/// call succeeds only with the stream of a handshake that succeeded, and
/// marks it as proxied.
pub proof fn lemma_course_of_a_call<S, C, D>(
    connector: SocksConnector<C>,
    target_addr: Uri,
    start: Progress<S, C, D>,
    reach: Result<S, D>,
    handshake: Result<S, D>,
)
    requires
        connector.starts(target_addr, start),
        has_host(target_of(target_addr).host),
    ensures
        start matches Progress::Pending(task, _) && match reach {
            Err(detail) => task.spec_advance::<S, C, D>(reach) == Progress::<S, C, D>::Ready(
                Err(Error::Connector(detail)),
            ),
            Ok(raw) => {
                &&& task.spec_advance::<S, C, D>(reach) matches Progress::Pending(next, action)
                &&& action matches Action::Negotiate { stream, request }
                &&& stream == raw
                &&& request.protocol == connector.protocol
                &&& Some(request.target@) == resolved(target_of(target_addr))
                &&& match handshake {
                    Ok(tunneled) => next.spec_advance::<S, C, D>(handshake) == Progress::<
                        S,
                        C,
                        D,
                    >::Ready(Ok(ConnectOutcome { stream: tunneled, proxied: true })),
                    Err(detail) => next.spec_advance::<S, C, D>(handshake) == Progress::<
                        S,
                        C,
                        D,
                    >::Ready(Err(Error::Socks(detail))),
                }
            },
        },
{
}

} // verus!
