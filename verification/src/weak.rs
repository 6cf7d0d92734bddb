//! Non-owning observers for handle liveness.
//!
//! A renderer holds a weak reference to the state shared with its
//! application-thread handle; the handle holds the only strong references.
//! Whether any strong reference remains depends on what other threads have
//! dropped, so the contracts here promise nothing about the answers.

use vstd::prelude::*;

use std::sync::{Arc, Weak};

verus! {

/// A non-owning reference to an `Arc`'s contents, used by renderers to
/// observe whether their application-thread handle is still alive.
#[verifier::external_body]
#[verifier::reject_recursive_types(T)]
pub struct WeakRef<T> {
    inner: Weak<T>,
}

/// Relies on `std::sync::Arc::downgrade`: a weak reference to the same
/// allocation, leaving the strong count unchanged.
#[verifier::external_body]
pub(crate) fn downgrade<T>(strong: &Arc<T>) -> (r: WeakRef<T>) {
    WeakRef { inner: Arc::downgrade(strong) }
}

/// Relies on `std::sync::Arc::clone`: a new strong reference to the same
/// contents.
#[verifier::external_body]
pub(crate) fn arc_clone<T>(strong: &Arc<T>) -> (r: Arc<T>)
    ensures
        r == *strong,
{
    Arc::clone(strong)
}

impl<T> WeakRef<T> {
    /// Relies on `std::sync::Weak::strong_count`: how many strong references
    /// to the allocation remain at the moment of the call (0 once all
    /// handles are dropped, and from then on forever).
    #[verifier::external_body]
    pub(crate) fn strong_count(&self) -> (r: usize) {
        self.inner.strong_count()
    }

    /// Relies on `std::sync::Weak::upgrade`: a strong reference to the
    /// allocation, or nothing when no strong reference remains.
    #[verifier::external_body]
    pub(crate) fn upgrade(&self) -> (r: Option<Arc<T>>) {
        self.inner.upgrade()
    }
}

} // verus!
