//! The wake registries: single-entry cells in which the newest registration
//! replaces the one before it without waking it.
//!
//! Everything here is a declaration about `futures::task::AtomicWaker` and
//! about `Waker` and `Poll` of `std::task`. None of it is proved.

use futures::task::AtomicWaker;
use std::task::Poll;
use std::task::Waker;
use vstd::prelude::*;

verus! {

/// `futures::task::AtomicWaker`, carried as an opaque value.
#[verifier::external_type_specification]
#[verifier::external_body]
pub struct ExAtomicWaker(AtomicWaker);

/// `std::task::Waker`, carried as an opaque value.
#[verifier::external_type_specification]
#[verifier::external_body]
pub struct ExWaker(Waker);

/// `std::task::Poll`, with its two variants.
#[verifier::external_type_specification]
pub struct ExPoll<T>(Poll<T>);

/// `AtomicWaker::new`: an empty registry. Nothing is claimed of it.
pub assume_specification[ AtomicWaker::new ]() -> (registry: AtomicWaker)
;

/// `AtomicWaker::register`: stores a clone of `waker` in place of any earlier
/// registration. Nothing is claimed of it.
pub assume_specification[ AtomicWaker::register ](registry: &AtomicWaker, waker: &Waker)
;

/// `Waker::wake_by_ref`: schedules the waker's own task to be polled again.
/// Nothing is claimed of it.
pub assume_specification[ Waker::wake_by_ref ](waker: &Waker)
;

/// `AtomicWaker::wake`: takes the registered waker out, if there is one, and
/// wakes it. The one claim is that waking a task does not unwind, which is
/// asked of every waker this channel is given.
#[verifier::external_body]
pub(crate) fn wake(registry: &AtomicWaker)
    opens_invariants none
    no_unwind
{
    registry.wake()
}

/// `AtomicWaker::take`, with the waker that comes out released at once. The
/// one claim is that releasing a waker does not unwind.
#[verifier::external_body]
pub(crate) fn clear(registry: &AtomicWaker)
    opens_invariants none
    no_unwind
{
    let _ = registry.take();
}

} // verus!
