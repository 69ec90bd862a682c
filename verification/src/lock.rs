use std::sync::{MutexGuard, PoisonError};
use vstd::prelude::*;

verus! {

/// `std::sync::MutexGuard`, carried through the verified code as an opaque value.
#[verifier::external_type_specification]
#[verifier::external_body]
#[verifier::reject_recursive_types(T)]
pub struct ExMutexGuard<'a, T: ?Sized + 'a>(MutexGuard<'a, T>);

/// `std::sync::PoisonError`, carried through the verified code as an opaque value.
#[verifier::external_type_specification]
#[verifier::external_body]
#[verifier::reject_recursive_types(T)]
pub struct ExPoisonError<T>(PoisonError<T>);

/// Calls `std::sync::PoisonError::into_inner`, which hands back the guard the
/// poisoned lock still produced. Nothing is stated of the guard.
#[verifier::external_body]
fn poison_into_inner<G>(e: PoisonError<G>) -> (g: G) {
    e.into_inner()
}

/// Turn the outcome of a `Mutex::lock` (taken by the caller) into a usable
/// guard plus a flag that says whether the lock was poisoned: a clean lock is
/// passed through with `false`; a poisoned lock is recovered (its guard is
/// still valid to read) with `true`, so the caller can mark the owning
/// surface dead while still reading the data for a final render.
pub fn recover_lock<'a, T>(
    result: Result<MutexGuard<'a, T>, PoisonError<MutexGuard<'a, T>>>,
) -> (r: (MutexGuard<'a, T>, bool))
    ensures
        r.1 == result is Err,
        result is Ok ==> r.0 == result->Ok_0,
{
    match result {
        Ok(guard) => (guard, false),
        Err(poison) => (poison_into_inner(poison), true),
    }
}

} // verus!
