//! The storage of the item in flight: a cell that the sender owns and lends
//! to the receiver for the length of one take.
//!
//! The handoff slot decides whose turn it is, so the two sides never reach
//! for the cell at the same moment unless a send operation was leaked. The
//! cell checks this instead of assuming it: an access that finds the other
//! side inside does not wait, it reports the cell as busy.

use futures::lock::Mutex;
use futures::lock::MutexGuard;
use std::sync::Arc;
use vstd::prelude::*;

verus! {

/// `futures::lock::Mutex`, carried as an opaque value.
#[verifier::external_type_specification]
#[verifier::external_body]
#[verifier::reject_recursive_types(T)]
pub struct ExMutex<T: ?Sized>(Mutex<T>);

/// `futures::lock::MutexGuard`, carried as an opaque value.
#[verifier::external_type_specification]
#[verifier::external_body]
#[verifier::reject_recursive_types(T)]
pub struct ExMutexGuard<'a, T: ?Sized>(MutexGuard<'a, T>);

/// `Mutex::new`: a cell that holds `value`. Nothing is claimed of it.
pub assume_specification<T>[ Mutex::<T>::new ](value: T) -> (cell: Mutex<T>)
;

/// `Mutex::try_lock`: exclusive access to the content, or `None` when someone
/// else holds it; it never waits. The one claim is that it does not unwind:
/// its source is a single atomic operation.
#[verifier::external_body]
fn try_lock<'a, T>(cell: &'a Mutex<Option<T>>) -> (guard: Option<MutexGuard<'a, Option<T>>>)
    opens_invariants none
    no_unwind
{
    cell.try_lock()
}

/// `MutexGuard::deref_mut` and `std::mem::replace` on what it gives: puts
/// `value` in the cell and hands out what was there. What was there depends
/// on the other side, so nothing is claimed of it; the one claim is that the
/// exchange does not unwind.
#[verifier::external_body]
fn replace<'a, T>(guard: &mut MutexGuard<'a, Option<T>>, value: Option<T>) -> (previous: Option<T>)
    opens_invariants none
    no_unwind
{
    std::mem::replace(&mut **guard, value)
}

/// `Arc::clone`: another pointer to the same allocation. The two pointers
/// reach one and the same cell, so the copy is equal to the handle that it
/// was made from.
#[verifier::external_body]
fn another<T>(handle: &Arc<Mutex<Option<T>>>) -> (copy: Arc<Mutex<Option<T>>>)
    ensures
        copy == *handle,
{
    Arc::clone(handle)
}

/// A handle on the storage cell of one channel. Two handles are equal if
/// they are handles on the same cell.
#[verifier::reject_recursive_types(T)]
pub struct Storage<T> {
    cell: Arc<Mutex<Option<T>>>,
}

impl<T> Storage<T> {
    /// An empty cell.
    pub fn new() -> (storage: Self) {
        Storage { cell: Arc::new(Mutex::new(None)) }
    }

    /// Another handle on the same cell.
    pub fn share(&self) -> (storage: Self)
        ensures
            storage == *self,
    {
        Storage { cell: another(&self.cell) }
    }

    /// Puts `value` in the cell and returns what the cell held, or gives
    /// `value` back untouched when the other side is inside the cell.
    pub fn exchange(&self, value: Option<T>) -> (outcome: Result<Option<T>, Option<T>>)
        ensures
            outcome is Err ==> outcome == Err::<Option<T>, Option<T>>(value),
        opens_invariants none
        no_unwind
    {
        match try_lock(&self.cell) {
            Some(mut guard) => Ok(replace(&mut guard, value)),
            None => Err(value),
        }
    }
}

} // verus!
