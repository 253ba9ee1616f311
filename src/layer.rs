//! Wrapping one request-processing stage in another.
use vstd::prelude::*;

verus! {

/// Something that, given an inner service, produces a new service wrapping
/// it. Layers are applied once, when a pipeline is built; stacking them sets
/// the order in which their behaviours apply.
pub trait Layer<S> {
    /// The service that wraps the inner one.
    type Service;

    /// Wraps `inner`.
    fn layer(self, inner: S) -> Self::Service;
}

} // verus!
