//! Whether a connector can take a new connect call.
//!
//! Readiness is passed outwards through a chain of connectors: a layer never
//! claims to be ready by itself.

use vstd::prelude::*;
use crate::error::Error;

verus! {

/// What a readiness check reports.
#[derive(Debug, PartialEq, Eq)]
pub enum Readiness<E> {
    /// Not able to take a call yet.
    NotReady,
    /// Able to take a call, or failed for good.
    Ready(Result<(), E>),
}

/// What the tunnel connector reports when its inner connector reports
/// `inner`: the same, with a failure wrapped as a `Connector` error.
pub open spec fn forwarded<D>(inner: Readiness<D>) -> Readiness<Error<D>> {
    match inner {
        Readiness::NotReady => Readiness::NotReady,
        Readiness::Ready(Ok(())) => Readiness::Ready(Ok(())),
        Readiness::Ready(Err(detail)) => Readiness::Ready(Err(Error::Connector(detail))),
    }
}

/// The tunnel connector is not ready exactly when its inner connector is
/// not, is ready exactly when the inner one is, and fails exactly when the
/// inner one fails, with the detail of that failure.
pub proof fn lemma_readiness_is_forwarded<D>(inner: Readiness<D>)
    ensures
        forwarded(inner) is NotReady <==> inner is NotReady,
        forwarded(inner) matches Readiness::Ready(Ok(_)) <==> inner matches Readiness::Ready(
            Ok(_),
        ),
        forall|detail: D|
            forwarded(inner) == Readiness::<Error<D>>::Ready(Err(Error::Connector(detail)))
                <==> inner == Readiness::<D>::Ready(Err(detail)),
{
}

} // verus!
