//! The [`Manager`] trait: how a pool creates, checks, and recycles its resources.

use vstd::prelude::*;

verus! {

/// Creates and maintains the resources held by a [`Pool`](crate::Pool).
///
/// Implement this for whatever is pooled: a database connection, an HTTP
/// client, a buffer. The pool drives the lifecycle through three hooks:
///
/// - [`create`](Manager::create) builds a new resource when the pool grows
///   toward `max_size`;
/// - [`validate`](Manager::validate) confirms an idle resource is still usable
///   before it is lent out;
/// - [`recycle`](Manager::recycle) resets a returned resource so it can be lent
///   out again.
///
/// One manager is shared by every thread that uses the pool, so it must be
/// `Send + Sync`. The pool never holds its lock while calling these methods.
/// The pool makes no assumption about what the hooks return: every outcome is
/// handled.
pub trait Manager: Send + Sync + 'static {
    /// The resource this manager produces and the pool hands out.
    type Resource: Send + 'static;

    /// The error returned when creating or recycling a resource fails.
    type Error: Send + Sync + 'static;

    /// Build a new resource. A failure surfaces as
    /// [`Error::Backend`](crate::Error::Backend) and the slot reserved for the
    /// resource is released.
    fn create(&self) -> Result<Self::Resource, Self::Error>;

    /// Reset a returned resource so it is fit to lend out again. A failure
    /// makes the pool discard the resource and free its slot.
    fn recycle(&self, resource: &mut Self::Resource) -> Result<(), Self::Error>;

    /// Check that an idle resource is still usable before lending it out.
    /// Returning `false` makes the pool discard it and move on to the next idle
    /// resource, or to a fresh one. The default accepts every resource.
    fn validate(&self, resource: &mut Self::Resource) -> (valid: bool)
        default_ensures
            valid,
            *final(resource) == *old(resource),
    {
        let _ = resource;
        true
    }
}

/// Whether `manager`'s [`validate`](Manager::validate), called on
/// `resource`, answered `valid`: only such a call establishes it.
pub open spec fn validated<M: Manager>(manager: M, resource: M::Resource, valid: bool) -> bool {
    exists|call: (&M, &mut M::Resource)|
        #[trigger] call_ensures(M::validate, call, valid) && *call.0 == manager && *call.1 == resource
}

/// Call `manager`'s [`validate`](Manager::validate) on `resource`, recording
/// the answer.
pub fn validate_with<M: Manager>(manager: &M, resource: &mut M::Resource) -> (valid: bool)
    ensures
        validated(*manager, *old(resource), valid),
{
    let validate = M::validate;
    validate(manager, resource)
}

} // verus!
