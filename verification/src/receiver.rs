//! The receiving handle: a lazy, finite sequence of items that ends for good
//! once the sender is gone.

use crate::joint;
use crate::shared::Inner;
use crate::slot::RestoreStep;
use crate::wake::clear;
use std::task::Poll;
use std::task::Waker;
use twinsies::Joint;
use twinsies::JointLock;
use vstd::prelude::*;

verus! {

/// How often one poll takes again after it found a newer offer in place of
/// the ticket it had borrowed, before it gives way to other tasks.
pub const RETAKE_LIMIT: usize = 64;

/// What a take that has come to its end means for the receiver: an item is
/// delivered, and without one the receiver stays suspended.
pub open spec fn delivery<T>(extracted: Option<T>) -> Poll<Option<T>> {
    match extracted {
        Some(item) => Poll::Ready(Some(item)),
        None => Poll::Pending,
    }
}

/// Turns what a finished take extracted into the result of the poll.
pub fn deliver<T>(extracted: Option<T>) -> (poll: Poll<Option<T>>)
    ensures
        poll == delivery(extracted),
{
    match extracted {
        Some(item) => Poll::Ready(Some(item)),
        None => Poll::Pending,
    }
}

/// What a poll of the receiver does next, once a take has come to its end.
pub enum AfterTake<T> {
    /// The poll returns.
    Return(Poll<Option<T>>),
    /// The take found a newer offer in place of the ticket that it had
    /// borrowed, and extracted nothing: take again, from that offer.
    TakeAgain,
    /// As before, but this poll has taken often enough: it gives way and
    /// leaves the newer offer to the next poll.
    GiveWay,
}

/// What follows a take that extracted `extracted` and ended with `end`, in
/// a poll that may take `left` more times: a take that has to be repeated
/// is repeated while the poll may, and every other take delivers what it
/// extracted.
pub open spec fn after_take<T>(
    extracted: Option<T>,
    end: Option<RestoreStep>,
    left: usize,
) -> AfterTake<T> {
    if end == Some(RestoreStep::Retake) {
        if left == 0 {
            AfterTake::GiveWay
        } else {
            AfterTake::TakeAgain
        }
    } else {
        AfterTake::Return(delivery(extracted))
    }
}

/// Decides what a poll does next, once a take has come to its end.
pub fn settle_take<T>(extracted: Option<T>, end: Option<RestoreStep>, left: usize) -> (next:
    AfterTake<T>)
    ensures
        next == after_take(extracted, end, left),
{
    match end {
        Some(RestoreStep::Retake) => if left == 0 {
            AfterTake::GiveWay
        } else {
            AfterTake::TakeAgain
        },
        _ => AfterTake::Return(deliver(extracted)),
    }
}

/// Whether a take has met a fault: the ticket that it was about to put back
/// was in the slot already.
pub open spec fn duplicate(end: Option<RestoreStep>) -> bool {
    end == Some(RestoreStep::Duplicate)
}

/// Tells whether a take has met a fault.
pub fn is_duplicate(end: Option<RestoreStep>) -> (fault: bool)
    ensures
        fault == duplicate(end),
{
    match end {
        Some(RestoreStep::Duplicate) => true,
        _ => false,
    }
}

/// One poll on a connected channel, told by the takes that it made, one
/// after the other: every take but the last had to be repeated, the poll
/// returns what follows the last, and it has met a fault if the last take
/// has.
pub open spec fn take_run<T>(
    takes: Seq<(Option<T>, Option<RestoreStep>)>,
    poll: Poll<Option<T>>,
    faulted: bool,
) -> bool {
    &&& 1 <= takes.len() <= RETAKE_LIMIT + 1
    &&& forall|i: int|
        0 <= i < takes.len() - 1 ==> after_take(
            (#[trigger] takes[i]).0,
            takes[i].1,
            (RETAKE_LIMIT - i) as usize,
        ) == AfterTake::<T>::TakeAgain
    &&& match after_take(
        takes.last().0,
        takes.last().1,
        (RETAKE_LIMIT - (takes.len() - 1)) as usize,
    ) {
        AfterTake::Return(returned) => poll == returned,
        AfterTake::TakeAgain => false,
        AfterTake::GiveWay => poll == Poll::Pending::<Option<T>>,
    }
    &&& faulted == duplicate(takes.last().1)
}

/// The bounds on the number of items still to come: none are promised, and
/// none can come once the sender is known to be gone.
pub open spec fn remaining(sender_alive: bool) -> (usize, Option<usize>) {
    (0, if sender_alive { None } else { Some(0) })
}

/// Computes the bounds on the number of items still to come.
pub fn remaining_items(sender_alive: bool) -> (bounds: (usize, Option<usize>))
    ensures
        bounds == remaining(sender_alive),
{
    (0, if sender_alive { None } else { Some(0) })
}

/// Whether the sequence is over for good: the receiver has seen its end, or
/// the sender is gone.
pub open spec fn over(ended: bool, sender_alive: bool) -> bool {
    ended || !sender_alive
}

/// Decides whether the sequence is over for good.
pub fn sequence_over(ended: bool, sender_alive: bool) -> (terminated: bool)
    ensures
        terminated == over(ended, sender_alive),
{
    ended || !sender_alive
}

/// The receiving half of a channel.
#[verifier::reject_recursive_types(T)]
pub struct Receiver<T> {
    inner: Joint<Inner<T>>,
    ended: bool,
    faulted: bool,
}

/// One receive in progress: it yields the next item, or `None` when the
/// sequence has ended. Dropped before that, it withdraws its registration.
#[verifier::reject_recursive_types(T)]
pub struct Recv<'a, T> {
    /// The receiver that this receive borrows.
    pub receiver: &'a mut Receiver<T>,
}

impl<T> Receiver<T> {
    /// The receiving half over its handle on the shared state.
    pub(crate) fn new(inner: Joint<Inner<T>>) -> (receiver: Self)
        ensures
            !receiver.ended(),
            !receiver.faulted(),
    {
        Receiver { inner, ended: false, faulted: false }
    }

    /// Whether this receiver has seen the end of the sequence.
    pub closed spec fn ended(&self) -> bool {
        self.ended
    }

    /// Whether a take of this receiver has met a fault: the ticket that it
    /// was about to put back was in the slot already.
    pub closed spec fn faulted(&self) -> bool {
        self.faulted
    }

    /// Whether a take of this receiver has met a fault. The protocol never
    /// leads to one.
    pub fn has_faulted(&self) -> (faulted: bool)
        ensures
            faulted == self.faulted(),
    {
        self.faulted
    }

    /// Begins to receive the next item.
    #[must_use]
    pub fn recv(&mut self) -> (op: Recv<'_, T>)
        ensures
            op.ended() == old(self).ended(),
            *op.receiver == *old(self),
            *final(self) == *final(op.receiver),
    {
        Recv { receiver: self }
    }

    /// Ends the sequence, for good.
    fn end(&mut self) -> (poll: Poll<Option<T>>)
        ensures
            final(self).ended(),
            final(self).faulted() == old(self).faulted(),
            poll == Poll::Ready(None::<T>),
    {
        self.ended = true;
        Poll::Ready(None)
    }

    /// One poll on a connected channel. `waker` is registered first: an
    /// offer that is published after an empty take would otherwise wake
    /// nobody. The takes follow: one that has to be repeated is repeated,
    /// `RETAKE_LIMIT` times at most, and the poll returns what follows the
    /// last. It never ends the sequence.
    fn receive(inner: &Inner<T>, waker: &Waker) -> (got: (Poll<Option<T>>, bool))
        ensures
            got.0 != Poll::Ready(None::<T>),
            exists|takes: Seq<(Option<T>, Option<RestoreStep>)>| take_run(takes, got.0, got.1),
    {
        inner.receiver_waker().register(waker);
        let mut left: usize = RETAKE_LIMIT;
        let ghost mut takes: Seq<(Option<T>, Option<RestoreStep>)> = Seq::empty();
        loop
            invariant
                left <= RETAKE_LIMIT,
                takes.len() == RETAKE_LIMIT - left,
                forall|i: int|
                    0 <= i < takes.len() ==> after_take(
                        (#[trigger] takes[i]).0,
                        takes[i].1,
                        (RETAKE_LIMIT - i) as usize,
                    ) == AfterTake::<T>::TakeAgain,
            decreases left,
        {
            let (extracted, end) = inner.take();
            let fault = is_duplicate(end);
            let ghost told = takes.push((extracted, end));
            match settle_take(extracted, end, left) {
                AfterTake::Return(poll) => {
                    let got = (poll, fault);
                    assert(take_run(told, got.0, got.1));
                    return got;
                },
                AfterTake::GiveWay => {
                    waker.wake_by_ref();
                    let got = (Poll::Pending, fault);
                    assert(take_run(told, got.0, got.1));
                    return got;
                },
                AfterTake::TakeAgain => {
                    proof {
                        takes = told;
                    }
                    left = left - 1;
                },
            }
        }
    }

    /// What follows the request for access to the shared state: with it,
    /// one poll on a connected channel, and nothing without it.
    fn with_access(access: Option<JointLock<'_, Inner<T>>>, waker: &Waker) -> (got: Option<
        (Poll<Option<T>>, bool),
    >)
        ensures
            got is None <==> access is None,
            got matches Some(taken) ==> taken.0 != Poll::Ready(None::<T>) && exists|
                takes: Seq<(Option<T>, Option<RestoreStep>)>,
            | take_run(takes, taken.0, taken.1),
    {
        match access {
            None => None,
            Some(access) => Some(Self::receive(joint::get(&access), waker)),
        }
    }

    /// What follows the outcome of the access. Without access the sender is
    /// gone and the sequence ends; with it, the poll returns what its takes
    /// came to, and the receiver keeps a fault in mind.
    fn conclude(&mut self, got: Option<(Poll<Option<T>>, bool)>) -> (poll: Poll<Option<T>>)
        requires
            got matches Some(taken) ==> taken.0 != Poll::Ready(None::<T>),
        ensures
            match got {
                None => final(self).ended() && poll == Poll::Ready(None::<T>) && final(self).faulted() == old(self).faulted(),
                Some(taken) => final(self).ended() == old(self).ended() && poll == taken.0
                    && final(self).faulted() == (old(self).faulted() || taken.1),
            },
    {
        match got {
            None => self.end(),
            Some((poll, fault)) => {
                if fault {
                    self.faulted = true;
                }
                poll
            },
        }
    }

    /// Asks for the next item.
    ///
    /// A receiver that has seen the end of the sequence returns
    /// `Poll::Ready(None)` at once. So does one that is refused access to the
    /// shared state: the sender is gone, and the sequence ends for good.
    /// Otherwise `waker` is registered first and a take follows: an item
    /// that it extracts is delivered, and without one the receiver suspends.
    /// A take that found a newer offer in place of the ticket that it had
    /// borrowed, and extracted nothing, is repeated within the same poll.
    ///
    /// `waker` must not unwind when it is cloned, woken or dropped.
    pub fn poll_next(&mut self, waker: &Waker) -> (poll: Poll<Option<T>>)
        ensures
            old(self).ended() ==> final(self).ended(),
            old(self).ended() ==> final(self).faulted() == old(self).faulted(),
            old(self).faulted() ==> final(self).faulted(),
            final(self).ended() <==> poll == Poll::Ready(None::<T>),
            !final(self).ended() ==> exists|
                takes: Seq<(Option<T>, Option<RestoreStep>)>,
                fault: bool,
            |
                take_run(takes, poll, fault) && final(self).faulted() == (old(self).faulted()
                    || fault),
    {
        if self.ended {
            return Poll::Ready(None);
        }
        let access = joint::lock(&self.inner);
        let got = Self::with_access(access, waker);
        self.conclude(got)
    }

    /// The bounds on the number of items still to come: the lower one is 0,
    /// the upper one is 0 once the sender is gone and unknown before.
    #[must_use]
    pub fn size_hint(&self) -> (bounds: (usize, Option<usize>))
        ensures
            bounds.0 == 0,
            bounds.1 is Some ==> bounds.1 == Some(0usize),
            self.ended() ==> bounds.1 == Some(0usize),
    {
        remaining_items(!self.is_terminated())
    }

    /// Whether the sequence has ended for good: the sender is gone.
    pub fn is_terminated(&self) -> (terminated: bool)
        ensures
            self.ended() ==> terminated,
    {
        sequence_over(self.ended, self.inner.alive())
    }
}

impl<T> Drop for Receiver<T> {
    /// Withdraws the receiver's registration. What the receiver has seen
    /// stays as it is.
    fn drop(&mut self)
        ensures
            final(self).ended() == old(self).ended(),
            final(self).faulted() == old(self).faulted(),
        opens_invariants none
        no_unwind
    {
        match joint::lock(&self.inner) {
            Some(access) => {
                clear(joint::get(&access).receiver_waker());
            },
            None => {},
        }
    }
}

impl<'a, T> Recv<'a, T> {
    /// Whether the receiver has seen the end of the sequence.
    pub open spec fn ended(&self) -> bool {
        self.receiver.ended()
    }

    /// Whether a take of the receiver has met a fault.
    pub open spec fn faulted(&self) -> bool {
        self.receiver.faulted()
    }

    /// Asks for the next item, as `Receiver::poll_next` does.
    ///
    /// `waker` must not unwind when it is cloned, woken or dropped.
    pub fn poll(&mut self, waker: &Waker) -> (poll: Poll<Option<T>>)
        ensures
            old(self).ended() ==> final(self).ended(),
            old(self).ended() ==> final(self).faulted() == old(self).faulted(),
            old(self).faulted() ==> final(self).faulted(),
            final(self).ended() <==> poll == Poll::Ready(None::<T>),
            !final(self).ended() ==> exists|
                takes: Seq<(Option<T>, Option<RestoreStep>)>,
                fault: bool,
            |
                take_run(takes, poll, fault) && final(self).faulted() == (old(self).faulted()
                    || fault),
    {
        self.receiver.poll_next(waker)
    }
}

impl<'a, T> Drop for Recv<'a, T> {
    /// Withdraws the registration of a receive that is abandoned. The
    /// receiver keeps no reference to the sender's storage between polls, so
    /// there is nothing to hand back, and the receiver itself stays as it
    /// is.
    fn drop(&mut self)
        ensures
            *final(self).receiver == *old(self).receiver,
        opens_invariants none
        no_unwind
    {
        match joint::lock(&self.receiver.inner) {
            Some(access) => {
                clear(joint::get(&access).receiver_waker());
            },
            None => {},
        }
    }
}

} // verus!
