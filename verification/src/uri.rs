//! Reading the parts of an [`http::Uri`].
//!
//! A `Uri` is opaque to the verifier. Its scheme, host and port are given
//! names here, and the accessors below are trusted to return exactly those.
//! Nothing is claimed of what the parts of a given URI are.

use vstd::prelude::*;
use http::Uri;

verus! {

#[verifier::external_type_specification]
#[verifier::external_body]
pub struct ExUri(http::Uri);

/// `Clone::clone` of a `Uri`, which the derived `Clone` of the connectors
/// calls.
///
/// Trusted: the clone is the same URI.
pub assume_specification[ <Uri as Clone>::clone ](uri: &Uri) -> (r: Uri)
    ensures
        r == *uri,
;

/// The scheme of a URI, in the text that `Uri::scheme_str` gives it.
pub uninterp spec fn uri_scheme(uri: Uri) -> Option<Seq<char>>;

/// The host of a URI, as `Uri::host` gives it.
pub uninterp spec fn uri_host(uri: Uri) -> Option<Seq<char>>;

/// The explicit port of a URI, as `Uri::port_u16` gives it.
pub uninterp spec fn uri_port(uri: Uri) -> Option<u16>;

/// The views of an optional string.
pub open spec fn text_of(s: Option<String>) -> Option<Seq<char>> {
    match s {
        Some(s) => Some(s@),
        None => None,
    }
}

/// Calls `Uri::scheme_str` and copies the text out.
///
/// Trusted: the result is the scheme of `uri`, and is absent exactly when the
/// scheme is.
#[verifier::external_body]
pub(crate) fn scheme_of(uri: &Uri) -> (r: Option<String>)
    ensures
        text_of(r) == uri_scheme(*uri),
{
    uri.scheme_str().map(str::to_string)
}

/// Calls `Uri::host` and copies the text out.
///
/// Trusted: the result is the host of `uri`, and is absent exactly when the
/// host is.
#[verifier::external_body]
pub(crate) fn host_of(uri: &Uri) -> (r: Option<String>)
    ensures
        text_of(r) == uri_host(*uri),
{
    uri.host().map(str::to_string)
}

/// Calls `Uri::port_u16`.
///
/// Trusted: the result is the port of `uri`.
#[verifier::external_body]
pub(crate) fn port_of(uri: &Uri) -> (r: Option<u16>)
    ensures
        r == uri_port(*uri),
{
    uri.port_u16()
}

} // verus!
