//! The operations on shared pointers whose contracts Verus takes on trust.
//!
//! To Verus an `Rc<T>` is the `T` that it points to. How many owners an
//! allocation has is not part of that value, so no contract here speaks of a
//! reference count: where a count decides, the contract says what holds
//! either way.

use std::rc::Rc;
use vstd::prelude::*;

verus! {

/// `Rc::clone`: a second pointer to the allocation behind `rc`. The contract
/// claims that the new pointer leads to the same value as `rc` does, which is
/// what pointing to the same allocation means.
#[verifier::external_body]
pub(crate) fn another_ref<T>(rc: &Rc<T>) -> (shared: Rc<T>)
    ensures
        *shared == **rc,
{
    Rc::clone(rc)
}

/// `Rc::try_unwrap`: the value behind `rc` if `rc` is its only owner, else
/// the same pointer back. Which of the two comes depends on the reference
/// count, so the contract claims only that either holds the value that `rc`
/// led to. It also claims that the call does not panic, which a destructor
/// has to know of everything it calls.
#[verifier::external_body]
pub(crate) fn reclaim<T>(rc: Rc<T>) -> (claim: Result<T, Rc<T>>)
    ensures
        match claim {
            Ok(value) => value == *rc,
            Err(still_shared) => *still_shared == *rc,
        },
    opens_invariants none
    no_unwind
{
    Rc::try_unwrap(rc)
}

} // verus!
