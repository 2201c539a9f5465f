//! The jointly owned cell that holds the shared state: two linked handles
//! over one value, which is destroyed as soon as either handle is gone and
//! no access through the other is under way.
//!
//! Everything here is a declaration about `twinsies::Joint` and
//! `twinsies::JointLock`. None of it is proved.

use twinsies::Joint;
use twinsies::JointLock;
use vstd::prelude::*;

verus! {

/// `twinsies::Joint`, carried as an opaque value.
#[verifier::external_type_specification]
#[verifier::external_body]
#[verifier::reject_recursive_types(T)]
pub struct ExJoint<T>(Joint<T>);

/// `twinsies::JointLock`, carried as an opaque value.
#[verifier::external_type_specification]
#[verifier::external_body]
#[verifier::reject_recursive_types(T)]
pub struct ExJointLock<'a, T>(JointLock<'a, T>);

/// `Joint::new`: the two handles over `value`. Nothing is claimed of them.
pub assume_specification<T>[ Joint::<T>::new ](value: T) -> (pair: (Joint<T>, Joint<T>))
;

/// `Joint::alive`: whether the shared value can still be reached. Another
/// thread can end that at any time, so nothing is claimed of the answer.
pub assume_specification<T>[ Joint::<T>::alive ](handle: &Joint<T>) -> (alive: bool)
;

/// `Joint::lock`: access to the shared value, or `None` once the other handle
/// is gone. The one claim is that it does not unwind: its source only loads
/// and exchanges a counter.
#[verifier::external_body]
pub(crate) fn lock<'a, T>(handle: &'a Joint<T>) -> (access: Option<JointLock<'a, T>>)
    opens_invariants none
    no_unwind
{
    handle.lock()
}

/// `JointLock::deref`: the shared value, which stays alive for as long as the
/// lock does. The one claim is that it does not unwind.
#[verifier::external_body]
pub(crate) fn get<'a, 'b, T>(access: &'b JointLock<'a, T>) -> (shared: &'b T)
    opens_invariants none
    no_unwind
{
    &**access
}

} // verus!
