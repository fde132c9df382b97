//! The reference-counted shared handle and the per-connection factory.
//!
//! One immutable service is wrapped once, then cloned per connection or
//! per request: every clone refers to the very same underlying service, so
//! dispatching through a clone is observably identical to dispatching
//! through the original.

use crate::service::S3Service;
use std::convert::Infallible;
use std::sync::Arc;
use vstd::prelude::*;

verus! {

/// Relies on `std::sync::Arc::clone`: the new handle refers to the same
/// allocation, so it carries the same underlying value.
#[verifier::external_body]
fn arc_clone<T>(a: &Arc<T>) -> (r: Arc<T>)
    ensures
        r == *a,
{
    Arc::clone(a)
}

/// Relies on `std::sync::Arc`'s `Deref`: borrowing through the handle
/// yields the underlying value.
#[verifier::external_body]
fn arc_borrow<T>(a: &Arc<T>) -> (r: &T)
    ensures
        *r == *a,
{
    &**a
}

/// A cheaply cloneable, reference-counted handle to one immutable
/// [`S3Service`]. All clones refer to the same underlying service; the
/// service is released when the last clone is dropped.
pub struct SharedS3Service<S, H, A, C, R>(pub Arc<S3Service<S, H, A, C, R>>);

impl<S, H, A, C, R> S3Service<S, H, A, C, R> {
    /// Wraps the service in a reference-counted, cloneable handle holding
    /// exactly this service.
    pub fn into_shared(self) -> (r: SharedS3Service<S, H, A, C, R>)
        ensures
            r.0 == self,
    {
        SharedS3Service(Arc::new(self))
    }
}

impl<S, H, A, C, R> SharedS3Service<S, H, A, C, R> {
    /// A borrowed view of the wrapped service, for adapters that need
    /// direct access.
    pub fn as_underlying(&self) -> (r: &S3Service<S, H, A, C, R>)
        ensures
            *r == self.0,
    {
        arc_borrow(&self.0)
    }

    /// Wraps the handle in the connection factory that hands each incoming
    /// connection its own clone of it.
    pub fn into_make_service(self) -> (r: MakeService<Self>)
        ensures
            r.0 == self,
    {
        MakeService(self)
    }
}

impl<S, H, A, C, R> Clone for SharedS3Service<S, H, A, C, R> {
    /// Cloning never blocks and never fails, and the clone refers to the
    /// same underlying service as the original.
    fn clone(&self) -> (r: Self)
        ensures
            r == *self,
    {
        SharedS3Service(arc_clone(&self.0))
    }
}

/// Dispatching through any clone of a shared handle is observably
/// identical to dispatching through the original: a clone equals the
/// handle it was cloned from, and equal handles wrap the very same
/// service, of which the execution context — the only service-dependent
/// input of a dispatch — is a function.
pub proof fn lemma_clones_share_service<S, H, A, C, R>(
    orig: SharedS3Service<S, H, A, C, R>,
    copy: SharedS3Service<S, H, A, C, R>,
)
    requires
        copy == orig,
    ensures
        copy.0 == orig.0,
{
}

/// The connection factory required by connection-oriented transports:
/// holds one shared handle and hands every connection its own clone of it.
#[derive(Clone)]
pub struct MakeService<S>(pub S);

impl<S, H, A, C, R> MakeService<SharedS3Service<S, H, A, C, R>> {
    /// Produces the per-connection service: a ready clone of the wrapped
    /// shared handle, whatever the connection metadata — the argument is
    /// ignored — and always successfully, synchronously.
    pub fn call<T>(&self, _target: T) -> (r: Result<SharedS3Service<S, H, A, C, R>, Infallible>)
        ensures
            r matches Ok(s) && s == self.0,
    {
        Ok(self.0.clone())
    }
}

} // verus!
