//! Layering TLS over a connector.
//!
//! An [`HttpsConnector`] is a connector of its own. It has its inner connector
//! establish the raw stream, and then has a TLS session negotiated over that
//! stream where its policy asks for one. Whether the scheme of the target has
//! a say in that is for the caller to configure: the policy is given when the
//! layer is built and is never inferred.

use vstd::prelude::*;
use http::Uri;
use crate::error::Error;
use crate::readiness::Readiness;
use crate::target::{has_host, request_target, target_of};
use crate::task::ConnectOutcome;
use crate::uri::text_of;

verus! {

/// When an [`HttpsConnector`] establishes TLS.
#[derive(Debug, Clone, Copy, PartialEq, Eq, Hash, Structural)]
pub enum TlsPolicy {
    /// Over every connection, whatever the scheme of the target.
    Always,
    /// Over connections to `https` targets, and over no other.
    ByScheme,
}

/// A connector that layers TLS over the streams of `connector`.
#[derive(Debug, Clone, PartialEq, Eq, Hash)]
pub struct HttpsConnector<C> {
    pub connector: C,
    pub policy: TlsPolicy,
}

/// A stream that may have a TLS session over it.
#[derive(Debug, PartialEq, Eq)]
pub enum MaybeHttpsStream<S, T> {
    /// The raw stream.
    Http(S),
    /// A TLS session over the raw stream.
    Https(T),
}

/// A call that waits for the inner connector. `hostname` is the name that the
/// TLS session will expect of the peer, or `None` where no TLS is to follow.
#[derive(Debug, PartialEq, Eq)]
pub struct Connecting {
    pub hostname: Option<String>,
}

/// A call that waits for the TLS handshake. `proxied` is what the inner
/// connector said of its stream.
#[derive(Debug, PartialEq, Eq)]
pub struct Securing {
    pub proxied: bool,
}

/// Where a call stands once the inner connector is done.
#[derive(Debug, PartialEq, Eq)]
pub enum Connected<S, T, D> {
    /// Not complete: negotiate TLS over `stream`, expecting `hostname`.
    Handshake { task: Securing, stream: S, hostname: String },
    /// Complete.
    Ready(Result<ConnectOutcome<MaybeHttpsStream<S, T>>, Error<D>>),
}

/// Whether `policy` asks for TLS to a target with `scheme`.
pub open spec fn requires_tls(policy: TlsPolicy, scheme: Option<Seq<char>>) -> bool {
    match policy {
        TlsPolicy::Always => true,
        TlsPolicy::ByScheme => scheme == Some("https"@),
    }
}

/// Whether `c` is one of the brackets that enclose an IP literal.
pub open spec fn is_bracket(c: char) -> bool {
    c == '[' || c == ']'
}

/// `host` without the brackets at its two ends, however many there are.
pub open spec fn without_brackets(host: Seq<char>) -> Seq<char>
    decreases host.len(),
{
    if host.len() > 0 && is_bracket(host.first()) {
        without_brackets(host.drop_first())
    } else if host.len() > 0 && is_bracket(host.last()) {
        without_brackets(host.drop_last())
    } else {
        host
    }
}

/// Where only brackets come before `from` and `host` goes on from there,
/// cutting them off changes nothing of what is left without brackets.
proof fn lemma_leading_brackets(host: Seq<char>, from: int)
    requires
        0 <= from <= host.len(),
        forall|k: int| 0 <= k < from ==> is_bracket(#[trigger] host[k]),
    ensures
        without_brackets(host) == without_brackets(host.subrange(from, host.len() as int)),
    decreases from,
{
    if from == 0 {
        assert(host.subrange(0, host.len() as int) =~= host);
    } else {
        let rest = host.drop_first();
        assert forall|k: int| 0 <= k < from - 1 implies is_bracket(#[trigger] rest[k]) by {
            assert(rest[k] == host[k + 1]);
        }
        lemma_leading_brackets(rest, from - 1);
        assert(rest.subrange(from - 1, rest.len() as int) =~= host.subrange(
            from,
            host.len() as int,
        ));
    }
}

/// Where `host` starts with no bracket and only brackets come from `to` on,
/// what is left without brackets is what comes before `to`.
proof fn lemma_trailing_brackets(host: Seq<char>, to: int)
    requires
        0 <= to <= host.len(),
        host.len() > 0 ==> !is_bracket(host.first()),
        to > 0 ==> !is_bracket(host[to - 1]),
        forall|k: int| to <= k < host.len() ==> is_bracket(#[trigger] host[k]),
    ensures
        without_brackets(host) == host.subrange(0, to),
    decreases host.len() - to,
{
    if to == host.len() {
        assert(host.subrange(0, to) =~= host);
    } else {
        let rest = host.drop_last();
        lemma_trailing_brackets(rest, to);
        assert(rest.subrange(0, to) =~= host.subrange(0, to));
    }
}

/// Whether the character of `host` at `at` is a bracket.
fn bracket_at(host: &str, at: usize) -> (r: bool)
    requires
        at < host@.len(),
    ensures
        r == is_bracket(host@[at as int]),
{
    let c = host.get_char(at);
    c == '[' || c == ']'
}

/// The name that a TLS session over a connection to `host` expects of its
/// peer: the host, without the brackets of an IP literal.
pub fn expected_hostname(host: &str) -> (r: String)
    ensures
        r@ == without_brackets(host@),
{
    let len = host.unicode_len();
    let mut from: usize = 0;
    while from < len && bracket_at(host, from)
        invariant
            from <= len == host@.len(),
            forall|k: int| 0 <= k < from ==> is_bracket(#[trigger] host@[k]),
        decreases len - from,
    {
        from += 1;
    }
    let mut to: usize = len;
    while to > from && bracket_at(host, to - 1)
        invariant
            from <= to <= len == host@.len(),
            forall|k: int| to <= k < len ==> is_bracket(#[trigger] host@[k]),
        decreases to,
    {
        to -= 1;
    }
    proof {
        let rest = host@.subrange(from as int, len as int);
        lemma_leading_brackets(host@, from as int);
        assert forall|k: int| to - from <= k < rest.len() implies is_bracket(
            #[trigger] rest[k],
        ) by {
            assert(rest[k] == host@[k + from]);
        }
        lemma_trailing_brackets(rest, to - from);
        assert(rest.subrange(0, to - from) =~= host@.subrange(from as int, to as int));
    }
    host.substring_char(from, to).to_owned()
}

impl TlsPolicy {
    /// Whether this policy asks for TLS to a target with `scheme`.
    pub fn applies(self, scheme: &Option<String>) -> (r: bool)
        ensures
            r == requires_tls(self, text_of(*scheme)),
    {
        match self {
            TlsPolicy::Always => true,
            TlsPolicy::ByScheme => match scheme {
                Some(s) => *s == "https".to_owned(),
                None => false,
            },
        }
    }
}

impl<C> HttpsConnector<C> {
    /// Whether `r` is where a call to `target` through `self` starts.
    ///
    /// A target without a host, or with an empty one, fails at once with
    /// `MissingHost`. Any other waits for the inner connector, which is handed
    /// back with the unchanged target; TLS is to follow exactly where the
    /// policy asks for it, and is to expect the host of the target, without
    /// the brackets of an IP literal.
    pub open spec fn starts<D>(self, target: Uri, r: Result<(Connecting, C, Uri), Error<D>>) -> bool {
        if has_host(target_of(target).host) {
            &&& r matches Ok((task, connector, inner_target))
            &&& connector == self.connector
            &&& inner_target == target
            &&& if requires_tls(self.policy, target_of(target).scheme) {
                task.hostname matches Some(h) && h@ == without_brackets(
                    target_of(target).host->0,
                )
            } else {
                task.hostname is None
            }
        } else {
            r == Err::<(Connecting, C, Uri), Error<D>>(Error::MissingHost)
        }
    }

    /// Starts a connect call to `target`. Nothing is asked of the inner
    /// connector where the call fails.
    pub fn call_async<D>(self, target: Uri) -> (r: Result<(Connecting, C, Uri), Error<D>>)
        ensures
            self.starts(target, r),
    {
        let parts = request_target(&target);
        let host = match parts.host {
            Some(h) => h,
            None => {
                return Err(Error::MissingHost);
            },
        };
        if host.as_str().is_empty() {
            return Err(Error::MissingHost);
        }
        let hostname = if self.policy.applies(&parts.scheme) {
            Some(expected_hostname(host.as_str()))
        } else {
            None
        };
        Ok((Connecting { hostname }, self.connector, target))
    }

    /// Forwards what the inner connector reports of its readiness.
    pub fn poll_ready<E>(&self, inner: Readiness<E>) -> (r: Readiness<E>)
        ensures
            r == inner,
    {
        inner
    }
}

impl Connecting {
    /// Where the call stands once the inner connector has ended in
    /// `outcome`.
    pub open spec fn spec_connected<S, T, D>(
        self,
        outcome: Result<ConnectOutcome<S>, Error<D>>,
    ) -> Connected<S, T, D> {
        match outcome {
            Err(e) => Connected::Ready(Err(e)),
            Ok(inner) => match self.hostname {
                Some(hostname) => Connected::Handshake {
                    task: Securing { proxied: inner.proxied },
                    stream: inner.stream,
                    hostname,
                },
                None => Connected::Ready(
                    Ok(
                        ConnectOutcome {
                            stream: MaybeHttpsStream::Http(inner.stream),
                            proxied: inner.proxied,
                        },
                    ),
                ),
            },
        }
    }

    /// Takes the outcome of the inner connector.
    ///
    /// Its error ends the call unchanged. Its stream is the result of the
    /// call where no TLS is to follow, and goes to the TLS handshake where it
    /// is.
    pub fn connected<S, T, D>(self, outcome: Result<ConnectOutcome<S>, Error<D>>) -> (r: Connected<
        S,
        T,
        D,
    >)
        ensures
            r == self.spec_connected::<S, T, D>(outcome),
    {
        match outcome {
            Err(e) => Connected::Ready(Err(e)),
            Ok(inner) => {
                let ConnectOutcome { stream, proxied } = inner;
                match self.hostname {
                    Some(hostname) => Connected::Handshake {
                        task: Securing { proxied },
                        stream,
                        hostname,
                    },
                    None => Connected::Ready(
                        Ok(ConnectOutcome { stream: MaybeHttpsStream::Http(stream), proxied }),
                    ),
                }
            },
        }
    }
}

impl Securing {
    /// The result of the call once the TLS handshake has ended in `outcome`.
    pub open spec fn spec_secured<S, T, D>(self, outcome: Result<T, D>) -> Result<
        ConnectOutcome<MaybeHttpsStream<S, T>>,
        Error<D>,
    > {
        match outcome {
            Ok(session) => Ok(
                ConnectOutcome { stream: MaybeHttpsStream::Https(session), proxied: self.proxied },
            ),
            Err(detail) => Err(Error::Tls(detail)),
        }
    }

    /// Takes the outcome of the TLS handshake: the session is the result of
    /// the call, and a failure ends it in `Tls`.
    pub fn secured<S, T, D>(self, outcome: Result<T, D>) -> (r: Result<
        ConnectOutcome<MaybeHttpsStream<S, T>>,
        Error<D>,
    >)
        ensures
            r == self.spec_secured::<S, T, D>(outcome),
    {
        match outcome {
            Ok(session) => Ok(
                ConnectOutcome { stream: MaybeHttpsStream::Https(session), proxied: self.proxied },
            ),
            Err(detail) => Err(Error::Tls(detail)),
        }
    }
}

/// Brackets around a host are cut off, however many there are, and nothing
/// else is: where `host` neither starts nor ends with a bracket, and `before`
/// and `after` hold brackets only, `host` is what is left of the three in a
/// row.
pub proof fn lemma_without_brackets(before: Seq<char>, host: Seq<char>, after: Seq<char>)
    requires
        forall|k: int| 0 <= k < before.len() ==> is_bracket(#[trigger] before[k]),
        forall|k: int| 0 <= k < after.len() ==> is_bracket(#[trigger] after[k]),
        host.len() > 0 ==> !is_bracket(host.first()) && !is_bracket(host.last()),
    ensures
        without_brackets(before + host + after) == host,
{
    let all = before + host + after;
    let rest = host + after;
    lemma_leading_brackets(all, before.len() as int);
    assert(all.subrange(before.len() as int, all.len() as int) =~= rest);
    if host.len() > 0 {
        lemma_trailing_brackets(rest, host.len() as int);
        assert(rest.subrange(0, host.len() as int) =~= host);
    } else {
        assert(rest =~= after);
        lemma_leading_brackets(after, after.len() as int);
        assert(after.subrange(after.len() as int, after.len() as int) =~= host);
    }
}

/// A layer that is to establish TLS always does so for every scheme and for
/// none; one that goes by the scheme does so for `https` and for nothing
/// else.
pub proof fn lemma_policy_decides_tls(scheme: Option<Seq<char>>)
    ensures
        requires_tls(TlsPolicy::Always, scheme),
        requires_tls(TlsPolicy::ByScheme, scheme) <==> scheme == Some("https"@),
{
}

/// No stream leaves a layer without TLS where its policy asks for TLS, and
/// none leaves it with TLS where the policy does not.
///
/// Once the inner connector has connected, a call through a layer that is to
/// establish TLS always goes on to the handshake, whatever the scheme of the
/// target. Through a layer that goes by the scheme it does so for an `https`
/// target, and for any other it is complete with the raw stream.
pub proof fn lemma_no_bypass_of_tls<S, T, C, D>(
    layer: HttpsConnector<C>,
    target: Uri,
    start: Result<(Connecting, C, Uri), Error<D>>,
    inner: ConnectOutcome<S>,
)
    requires
        layer.starts(target, start),
        has_host(target_of(target).host),
    ensures
        start matches Ok((task, _, _)) && {
            let next = task.spec_connected::<S, T, D>(Ok(inner));
            if layer.policy == TlsPolicy::Always || target_of(target).scheme == Some("https"@) {
                &&& next matches Connected::Handshake { task: securing, stream, hostname }
                &&& stream == inner.stream
                &&& securing.proxied == inner.proxied
                &&& hostname@ == without_brackets(target_of(target).host->0)
            } else {
                next == Connected::<S, T, D>::Ready(
                    Ok(
                        ConnectOutcome {
                            stream: MaybeHttpsStream::Http(inner.stream),
                            proxied: inner.proxied,
                        },
                    ),
                )
            }
        },
{
}

} // verus!
