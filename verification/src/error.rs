//! The errors of a connect call.

use vstd::prelude::*;

verus! {

/// Why a connect call failed.
///
/// `D` is the detail that the failing collaborator reported. It is carried
/// as it was given.
#[derive(Debug, PartialEq, Eq)]
pub enum Error<D> {
    /// The proxy handshake was rejected or failed.
    Socks(D),
    /// The inner connector could not reach the proxy.
    Connector(D),
    /// The TLS handshake over the established stream failed.
    Tls(D),
    /// The request target carries no host.
    MissingHost,
}

/// The kind of an [`Error`], without its detail.
#[derive(Debug, Clone, Copy, PartialEq, Eq, Structural)]
pub enum ErrorKind {
    /// The request target carries no host.
    MissingHost,
    /// The proxy could not be reached.
    Transport,
    /// The proxy was reached, and the tunnel through it failed.
    Protocol,
    /// The stream was established, and TLS over it failed.
    Tls,
}

impl<D> Error<D> {
    /// The kind of this error.
    pub open spec fn spec_kind(&self) -> ErrorKind {
        match *self {
            Error::Socks(_) => ErrorKind::Protocol,
            Error::Connector(_) => ErrorKind::Transport,
            Error::Tls(_) => ErrorKind::Tls,
            Error::MissingHost => ErrorKind::MissingHost,
        }
    }

    /// The detail that the failing collaborator reported, if there was one.
    pub open spec fn spec_detail(self) -> Option<D> {
        match self {
            Error::Socks(d) => Some(d),
            Error::Connector(d) => Some(d),
            Error::Tls(d) => Some(d),
            Error::MissingHost => None,
        }
    }

    /// The kind of this error.
    #[verifier::when_used_as_spec(spec_kind)]
    pub fn kind(&self) -> (r: ErrorKind)
        ensures
            r == self.spec_kind(),
    {
        match self {
            Error::Socks(_) => ErrorKind::Protocol,
            Error::Connector(_) => ErrorKind::Transport,
            Error::Tls(_) => ErrorKind::Tls,
            Error::MissingHost => ErrorKind::MissingHost,
        }
    }

    /// Gives up the error for the detail it wraps.
    pub fn into_detail(self) -> (r: Option<D>)
        ensures
            r == self.spec_detail(),
    {
        match self {
            Error::Socks(d) => Some(d),
            Error::Connector(d) => Some(d),
            Error::Tls(d) => Some(d),
            Error::MissingHost => None,
        }
    }
}

impl<D: core::fmt::Display> Error<D> {
    /// The text of this error: that of the wrapped detail, or `Missing host`.
    pub fn message(&self) -> (r: String)
        ensures
            match *self {
                Error::Socks(d) | Error::Connector(d) | Error::Tls(d) =>
                    vstd::string::to_string_from_display_ensures::<D>(&d, r),
                Error::MissingHost => r@ == "Missing host"@,
            },
    {
        match self {
            Error::Socks(d) => d.to_string(),
            Error::Connector(d) => d.to_string(),
            Error::Tls(d) => d.to_string(),
            Error::MissingHost => "Missing host".to_owned(),
        }
    }
}

} // verus!
