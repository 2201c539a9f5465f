//! The shared handoff state and the three operations of the transfer
//! protocol on it: publish, take and reclaim.

use crate::slot::classify_reclaim;
use crate::slot::classify_restore;
use crate::slot::inconclusive;
use crate::slot::reclaim_run;
use crate::slot::reclaim_step;
use crate::slot::ReclaimStep;
use crate::slot::RestoreStep;
use crate::slot::EMPTY;
use crate::storage::Storage;
use crate::wake::wake;
use futures::task::AtomicWaker;
use std::sync::atomic::AtomicUsize;
use std::sync::atomic::Ordering;
use vstd::prelude::*;

verus! {

/// `AtomicUsize::compare_exchange_weak`, acquiring on success: stores `new`
/// if the word is `current` and returns what the word held, as `Ok` when it
/// stored. What the word held depends on the other side, so nothing is
/// claimed of the result. The one claim is that the exchange does not
/// unwind, which vstd's declaration of this function leaves open and which
/// a destructor needs of all that it calls.
#[verifier::external_body]
fn exchange_weak(word: &AtomicUsize, current: usize, new: usize) -> (observed: Result<usize, usize>)
    opens_invariants none
    no_unwind
{
    word.compare_exchange_weak(current, new, Ordering::Acquire, Ordering::Relaxed)
}

/// `std::hint::spin_loop`: tells the processor that this thread is waiting
/// for another. The one claim is that it does not unwind.
#[verifier::external_body]
fn back_off()
    opens_invariants none
    no_unwind
{
    std::hint::spin_loop()
}

/// The state that the two handles of a channel share.
#[verifier::reject_recursive_types(T)]
pub struct Inner<T> {
    /// `EMPTY`, or the ticket of the send operation whose item is on offer.
    sent_item: AtomicUsize,
    /// The sender's storage, which the ticket in `sent_item` lends out.
    storage: Storage<T>,
    /// Signalled when the receiver has taken an item, or is gone.
    sender_waker: AtomicWaker,
    /// Signalled when the sender has an item on offer, or is gone.
    receiver_waker: AtomicWaker,
}

impl<T> Inner<T> {
    /// The handle on the sender's storage through which the receiver takes.
    pub closed spec fn storage(&self) -> Storage<T> {
        self.storage
    }

    /// A shared state with an empty slot and nobody registered, over the
    /// given storage.
    pub fn new(storage: Storage<T>) -> (inner: Self)
        ensures
            inner.storage() == storage,
    {
        Inner {
            sent_item: AtomicUsize::new(EMPTY),
            storage,
            sender_waker: AtomicWaker::new(),
            receiver_waker: AtomicWaker::new(),
        }
    }

    /// The registry through which the sender is woken.
    pub(crate) fn sender_waker(&self) -> (registry: &AtomicWaker)
        opens_invariants none
        no_unwind
    {
        &self.sender_waker
    }

    /// The registry through which the receiver is woken.
    pub(crate) fn receiver_waker(&self) -> (registry: &AtomicWaker)
        opens_invariants none
        no_unwind
    {
        &self.receiver_waker
    }

    /// Puts `ticket` on offer and signals the receiver. Publishing the same
    /// ticket again is harmless.
    pub fn publish(&self, ticket: usize) {
        self.sent_item.store(ticket, Ordering::Release);
        wake(&self.receiver_waker);
    }

    /// The sender takes its ticket out of the slot again, to regain exclusive
    /// access to its storage. An attempt that finds the slot empty backs off
    /// and is repeated, as is one that failed spuriously, up to `patience`
    /// times; the result is what the last attempt showed. `Reclaimed` means
    /// that the slot held the ticket and is empty now.
    ///
    /// The reclaim returns at once on `Reclaimed` and on `Foreign`. It
    /// returns an inconclusive result only when `patience + 1` attempts in a
    /// row were inconclusive: with all the patience there is, that is as
    /// good as never.
    pub fn reclaim_sent_item_pointer(&self, ticket: usize, patience: usize) -> (last: ReclaimStep)
        ensures
            exists|attempts: Seq<Result<usize, usize>>|
                reclaim_run(attempts, ticket, patience, last),
        opens_invariants none
        no_unwind
    {
        let mut left: usize = patience;
        let ghost mut attempts: Seq<Result<usize, usize>> = Seq::empty();
        loop
            invariant
                left <= patience,
                attempts.len() == patience - left,
                forall|i: int|
                    0 <= i < attempts.len() ==> inconclusive(
                        reclaim_step(#[trigger] attempts[i], ticket),
                    ),
            decreases left,
        {
            let observed = exchange_weak(&self.sent_item, ticket, EMPTY);
            let step = classify_reclaim(observed, ticket);
            proof {
                let told = attempts.push(observed);
                if !inconclusive(step) || left == 0 {
                    assert(reclaim_run(told, ticket, patience, step));
                }
                attempts = told;
            }
            match step {
                ReclaimStep::Reclaimed => {
                    return step;
                },
                ReclaimStep::Foreign => {
                    return step;
                },
                ReclaimStep::Spurious => {
                    if left == 0 {
                        return step;
                    }
                },
                ReclaimStep::OnLoan => {
                    if left == 0 {
                        return step;
                    }
                    back_off();
                },
            }
            left = left - 1;
        }
    }

    /// One take by the receiver: empties the slot; if it held a ticket,
    /// extracts what the storage holds and puts the ticket back, waking the
    /// sender when that succeeds. Returns what was extracted and how the
    /// restore went, `None` for a slot that was empty to begin with.
    pub fn take(&self) -> (taken: (Option<T>, Option<RestoreStep>))
        ensures
            taken.1 is None ==> taken.0 is None,
            taken.1 == Some(RestoreStep::Retake) ==> taken.0 is None,
            taken.1 == Some(RestoreStep::Keep) ==> taken.0 is Some,
    {
        let ticket: usize = self.sent_item.swap(EMPTY, Ordering::Acquire);
        if ticket == EMPTY {
            return (None, None);
        }
        let extracted = match self.storage.exchange(None) {
            Ok(item) => item,
            Err(_) => None,
        };
        let observed = if extracted.is_some() {
            self.sent_item.compare_exchange(EMPTY, ticket, Ordering::Release, Ordering::Relaxed)
        } else {
            self.sent_item.compare_exchange(EMPTY, ticket, Ordering::Relaxed, Ordering::Relaxed)
        };
        let step = classify_restore(observed, ticket, extracted.is_some());
        match step {
            RestoreStep::Restored => {
                wake(&self.sender_waker);
            },
            _ => {},
        }
        (extracted, Some(step))
    }
}

impl<T> Drop for Inner<T> {
    /// The last act of the shared state: whoever is still registered is
    /// woken, so that nobody stays suspended on a channel that is gone.
    fn drop(&mut self)
        ensures
            final(self).storage() == old(self).storage(),
        opens_invariants none
        no_unwind
    {
        wake(&self.sender_waker);
        wake(&self.receiver_waker);
    }
}

} // verus!
