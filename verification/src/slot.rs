//! The handoff slot and the meaning of each operation on it.
//!
//! The slot is one machine word. It is either empty or holds the ticket of
//! the send operation whose storage is on offer. The receiver empties the
//! slot to borrow that storage and puts the ticket back when it is done; the
//! sender takes its own ticket out again to reclaim the storage.

use vstd::prelude::*;

verus! {

/// The word that an empty slot holds. No send operation has this ticket.
pub const EMPTY: usize = 0;

/// The ticket that follows `ticket` in a sender's sequence of operations.
/// The sequence skips `EMPTY` and never repeats a ticket immediately.
pub open spec fn next_ticket(ticket: usize) -> usize {
    if ticket == usize::MAX {
        1
    } else {
        (ticket + 1) as usize
    }
}

/// Computes the ticket of a sender's next operation from that of its last.
pub fn advance(ticket: usize) -> (next: usize)
    ensures
        next == next_ticket(ticket),
        next != EMPTY,
        next != ticket,
{
    if ticket == usize::MAX {
        1
    } else {
        ticket + 1
    }
}

/// What one attempt of the sender to take its ticket out of the slot showed.
#[derive(Clone, Copy, PartialEq, Eq, Structural, Debug)]
pub enum ReclaimStep {
    /// The slot held the ticket and is empty now: the storage is the
    /// sender's again.
    Reclaimed,
    /// The exchange failed though the slot held the ticket: try again.
    Spurious,
    /// The slot is empty: the receiver is in the middle of a take. Back off,
    /// then try again.
    OnLoan,
    /// The slot holds another ticket while this operation's storage is
    /// outstanding. The protocol never leads here.
    Foreign,
}

/// The meaning of the result of a weak compare-and-swap from `ticket` to
/// `EMPTY`.
pub open spec fn reclaim_step(observed: Result<usize, usize>, ticket: usize) -> ReclaimStep {
    match observed {
        Ok(_) => ReclaimStep::Reclaimed,
        Err(current) => if current == ticket {
            ReclaimStep::Spurious
        } else if current == EMPTY {
            ReclaimStep::OnLoan
        } else {
            ReclaimStep::Foreign
        },
    }
}

/// Classifies the result of one reclaim attempt.
pub fn classify_reclaim(observed: Result<usize, usize>, ticket: usize) -> (step: ReclaimStep)
    ensures
        step == reclaim_step(observed, ticket),
    opens_invariants none
    no_unwind
{
    match observed {
        Ok(_) => ReclaimStep::Reclaimed,
        Err(current) => if current == ticket {
            ReclaimStep::Spurious
        } else if current == EMPTY {
            ReclaimStep::OnLoan
        } else {
            ReclaimStep::Foreign
        },
    }
}

/// Whether an attempt leaves the reclaim to be tried again.
pub open spec fn inconclusive(step: ReclaimStep) -> bool {
    step == ReclaimStep::Spurious || step == ReclaimStep::OnLoan
}

/// A reclaim with `patience`, told by what its attempts observed, one after
/// the other: every attempt but the last was inconclusive, `last` is what
/// the last attempt showed, and the reclaim has given up on an inconclusive
/// attempt only after `patience + 1` of them.
pub open spec fn reclaim_run(
    attempts: Seq<Result<usize, usize>>,
    ticket: usize,
    patience: usize,
    last: ReclaimStep,
) -> bool {
    &&& 1 <= attempts.len() <= patience + 1
    &&& last == reclaim_step(attempts.last(), ticket)
    &&& forall|i: int|
        0 <= i < attempts.len() - 1 ==> inconclusive(reclaim_step(#[trigger] attempts[i], ticket))
    &&& inconclusive(last) ==> attempts.len() == patience + 1
}

/// What the receiver's attempt to put a borrowed ticket back showed.
#[derive(Clone, Copy, PartialEq, Eq, Structural, Debug)]
pub enum RestoreStep {
    /// The ticket is back in the slot: wake the sender, so that it can
    /// reclaim its storage.
    Restored,
    /// Another ticket has been published meanwhile and this take yielded
    /// nothing: take again, from the new offer.
    Retake,
    /// Another ticket has been published meanwhile and this take yielded an
    /// item: deliver it. The new publication has already signalled the
    /// receiver, so nobody needs waking.
    Keep,
    /// The borrowed ticket is in the slot already. The protocol never leads
    /// here.
    Duplicate,
}

/// The meaning of the result of a compare-and-swap from `EMPTY` back to
/// `ticket`, at the end of a take that did or did not extract an item.
pub open spec fn restore_step(
    observed: Result<usize, usize>,
    ticket: usize,
    extracted: bool,
) -> RestoreStep {
    match observed {
        Ok(_) => RestoreStep::Restored,
        Err(current) => if current == ticket {
            RestoreStep::Duplicate
        } else if extracted {
            RestoreStep::Keep
        } else {
            RestoreStep::Retake
        },
    }
}

/// Classifies the result of the receiver's restore.
pub fn classify_restore(observed: Result<usize, usize>, ticket: usize, extracted: bool) -> (step:
    RestoreStep)
    ensures
        step == restore_step(observed, ticket, extracted),
{
    match observed {
        Ok(_) => RestoreStep::Restored,
        Err(current) => if current == ticket {
            RestoreStep::Duplicate
        } else if extracted {
            RestoreStep::Keep
        } else {
            RestoreStep::Retake
        },
    }
}

} // verus!
