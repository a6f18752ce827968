//! Resolving the address to tunnel to from a request target.
//!
//! Resolution is a total function of the target's scheme, host and port. It
//! reads nothing else and has no effect.

use vstd::prelude::*;
use http::Uri;
use crate::error::Error;
use crate::uri::{host_of, port_of, scheme_of, text_of, uri_host, uri_port, uri_scheme};

verus! {

/// What a request target says of where it leads.
#[derive(Debug, Clone, PartialEq, Eq)]
pub struct RequestTarget {
    pub scheme: Option<String>,
    pub host: Option<String>,
    pub port: Option<u16>,
}

/// A request target, with its texts as sequences of characters.
pub struct RequestTargetView {
    pub scheme: Option<Seq<char>>,
    pub host: Option<Seq<char>>,
    pub port: Option<u16>,
}

impl View for RequestTarget {
    type V = RequestTargetView;

    open spec fn view(&self) -> RequestTargetView {
        RequestTargetView {
            scheme: text_of(self.scheme),
            host: text_of(self.host),
            port: self.port,
        }
    }
}

/// The host and port that a tunnel is asked to lead to.
#[derive(Debug, Clone, PartialEq, Eq, Hash)]
pub struct TargetAddress {
    pub host: String,
    pub port: u16,
}

/// A target address, with its host as a sequence of characters.
pub struct TargetAddressView {
    pub host: Seq<char>,
    pub port: u16,
}

impl View for TargetAddress {
    type V = TargetAddressView;

    open spec fn view(&self) -> TargetAddressView {
        TargetAddressView { host: self.host@, port: self.port }
    }
}

/// The port that a scheme stands for when the target names none: 443 for
/// `https`, 80 for any other scheme and for none.
pub open spec fn default_port(scheme: Option<Seq<char>>) -> u16 {
    if scheme == Some("https"@) {
        443
    } else {
        80
    }
}

/// The port of a target: the one it names, else the default of its scheme.
pub open spec fn resolved_port(scheme: Option<Seq<char>>, port: Option<u16>) -> u16 {
    match port {
        Some(p) => p,
        None => default_port(scheme),
    }
}

/// Whether a target carries a host: one that is present and not empty.
pub open spec fn has_host(host: Option<Seq<char>>) -> bool {
    host matches Some(h) && h.len() > 0
}

/// The address that a target resolves to, or `None` where it carries no host.
pub open spec fn resolved(target: RequestTargetView) -> Option<TargetAddressView> {
    if has_host(target.host) {
        Some(
            TargetAddressView {
                host: target.host->0,
                port: resolved_port(target.scheme, target.port),
            },
        )
    } else {
        None
    }
}

/// What `uri` says of where it leads.
pub open spec fn target_of(uri: Uri) -> RequestTargetView {
    RequestTargetView { scheme: uri_scheme(uri), host: uri_host(uri), port: uri_port(uri) }
}

/// Whether `r` is the outcome of resolving `target`: the resolved address, or
/// `MissingHost` where there is none.
pub open spec fn is_resolution<D>(
    target: RequestTargetView,
    r: Result<TargetAddress, Error<D>>,
) -> bool {
    match resolved(target) {
        Some(address) => r matches Ok(a) && a@ == address,
        None => r == Err::<TargetAddress, Error<D>>(Error::MissingHost),
    }
}

/// The default port of `scheme`.
pub fn port_for_scheme(scheme: &Option<String>) -> (port: u16)
    ensures
        port == default_port(text_of(*scheme)),
{
    match scheme {
        Some(s) => {
            if *s == "https".to_owned() {
                443
            } else {
                80
            }
        },
        None => 80,
    }
}

/// Resolves the address that `target` leads to.
///
/// Fails with `MissingHost` exactly when the target has no host or an empty
/// one. Otherwise the host is that of the target and the port is the one the
/// target names, or else 443 for `https` and 80 for anything else.
pub fn resolve<D>(target: RequestTarget) -> (r: Result<TargetAddress, Error<D>>)
    ensures
        is_resolution(target@, r),
{
    let RequestTarget { scheme, host, port } = target;
    let host = match host {
        Some(h) => h,
        None => {
            return Err(Error::MissingHost);
        },
    };
    if host.as_str().is_empty() {
        return Err(Error::MissingHost);
    }
    let port = match port {
        Some(p) => p,
        None => port_for_scheme(&scheme),
    };
    Ok(TargetAddress { host, port })
}

/// Reads from `uri` what it says of where it leads.
pub fn request_target(uri: &Uri) -> (r: RequestTarget)
    ensures
        r@ == target_of(*uri),
{
    RequestTarget { scheme: scheme_of(uri), host: host_of(uri), port: port_of(uri) }
}

/// Resolves the address that `uri` leads to.
pub fn resolve_uri<D>(uri: &Uri) -> (r: Result<TargetAddress, Error<D>>)
    ensures
        is_resolution(target_of(*uri), r),
{
    resolve(request_target(uri))
}

/// A port that the target names is the port it resolves to, whatever its
/// scheme.
pub proof fn lemma_explicit_port_is_kept(target: RequestTargetView, port: u16)
    requires
        target.port == Some(port),
    ensures
        resolved_port(target.scheme, target.port) == port,
        has_host(target.host) ==> (resolved(target) matches Some(a) && a.port == port),
        forall|scheme: Option<Seq<char>>|
            resolved(RequestTargetView { scheme, ..target }) == resolved(target),
{
}

/// A target that names no port resolves to port 443 where its scheme is
/// `https`, and to port 80 under any other scheme and under none.
pub proof fn lemma_default_port_follows_scheme(target: RequestTargetView)
    requires
        target.port is None,
    ensures
        target.scheme == Some("https"@) ==> resolved_port(target.scheme, target.port) == 443,
        target.scheme != Some("https"@) ==> resolved_port(target.scheme, target.port) == 80,
        has_host(target.host) ==> (resolved(target) matches Some(a) && a.port == default_port(
            target.scheme,
        )),
{
}

/// Resolution fails for a target without a host or with an empty one, and
/// for no other: neither the scheme nor the port can make it fail, and an
/// absent scheme is no error. Where it succeeds, the host is that of the
/// target.
pub proof fn lemma_resolution_fails_only_without_host(target: RequestTargetView)
    ensures
        resolved(target) is None <==> (target.host is None || target.host == Some(
            Seq::<char>::empty(),
        )),
        resolved(target) matches Some(a) ==> target.host == Some(a.host),
{
    if let Some(h) = target.host {
        if h.len() == 0 {
            assert(h =~= Seq::<char>::empty());
        }
    }
}

} // verus!
