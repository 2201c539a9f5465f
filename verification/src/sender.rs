//! The sending handle and the send operation.

use crate::error::after_disconnect;
use crate::error::settle_disconnected;
use crate::error::SendError;
use crate::joint;
use crate::shared::Inner;
use crate::slot::advance;
use crate::slot::inconclusive;
use crate::slot::next_ticket;
use crate::slot::reclaim_run;
use crate::slot::ReclaimStep;
use crate::storage::Storage;
use crate::wake::clear;
use std::task::Poll;
use std::task::Waker;
use twinsies::Joint;
use twinsies::JointLock;
use vstd::prelude::*;

verus! {

/// How often a poll repeats a reclaim that finds the receiver in the middle
/// of a take before it gives way to other tasks.
pub const POLL_PATIENCE: usize = 64;

/// Where a send operation stands.
#[derive(Clone, Copy, PartialEq, Eq, Structural, Debug)]
pub enum Phase {
    /// Nothing is published; the operation holds its item.
    Idle,
    /// The ticket is published and the item lies in the storage, until the
    /// receiver takes it.
    Waiting,
    /// The operation has ended, in success or in failure.
    Done,
}

/// The sending half of a channel.
#[verifier::reject_recursive_types(T)]
pub struct Sender<T> {
    inner: Joint<Inner<T>>,
    storage: Storage<T>,
    issued: usize,
}

/// What a send that waits does next, once it has reclaimed its storage and
/// looked into it.
pub enum AfterReclaim<T> {
    /// The item is gone: the send has succeeded.
    Succeed,
    /// The item is still there: take it back and offer it again.
    Offer(T),
    /// The storage could not be looked into: put the ticket back on offer
    /// and look again at the next poll.
    Republish,
}

/// What follows from the look into the reclaimed storage.
pub open spec fn after_reclaim<T>(stored: Result<Option<T>, Option<T>>) -> AfterReclaim<T> {
    match stored {
        Ok(None) => AfterReclaim::Succeed,
        Ok(Some(item)) => AfterReclaim::Offer(item),
        Err(_) => AfterReclaim::Republish,
    }
}

/// Decides what a send that waits does next, from what the look into the
/// reclaimed storage came to.
pub fn inspect<T>(stored: Result<Option<T>, Option<T>>) -> (next: AfterReclaim<T>)
    ensures
        next == after_reclaim(stored),
{
    match stored {
        Ok(None) => AfterReclaim::Succeed,
        Ok(Some(item)) => AfterReclaim::Offer(item),
        Err(_) => AfterReclaim::Republish,
    }
}

/// Whether a send in this phase has something to withdraw when it is
/// dropped: only a send that waits has an offer out.
pub open spec fn has_offer(phase: Phase) -> bool {
    phase == Phase::Waiting
}

/// Decides whether the drop of a send in this phase has to withdraw. A send
/// that was never polled, or that has given way with its item in hand, or
/// that has ended, has nothing out and does nothing to the shared state.
pub fn withdraws(phase: Phase) -> (yes: bool)
    ensures
        yes == has_offer(phase),
    opens_invariants none
    no_unwind
{
    match phase {
        Phase::Waiting => true,
        _ => false,
    }
}

/// Whether the storage is the sender's alone at the end of a withdrawal,
/// given what the reclaim came to, `None` standing for a channel that is
/// disconnected. After `Reclaimed` it is, and so it is without a receiver.
/// It is not after an inconclusive end, when the receiver may still be in
/// the middle of a take, nor after `Foreign`, the fault, when the slot holds
/// another ticket: the withdrawal then leaves slot and storage as they are.
pub open spec fn storage_is_mine(last: Option<ReclaimStep>) -> bool {
    match last {
        None => true,
        Some(step) => step == ReclaimStep::Reclaimed,
    }
}

/// Decides whether a withdrawal empties the storage.
pub fn empties_storage(last: Option<ReclaimStep>) -> (mine: bool)
    ensures
        mine == storage_is_mine(last),
    opens_invariants none
    no_unwind
{
    match last {
        None => true,
        Some(ReclaimStep::Reclaimed) => true,
        Some(_) => false,
    }
}

/// One send in progress. It ends when `poll` returns `Poll::Ready`; dropped
/// before that, it withdraws its offer.
#[verifier::reject_recursive_types(T)]
pub struct SendOp<'a, T> {
    inner: &'a Joint<Inner<T>>,
    storage: &'a Storage<T>,
    ticket: usize,
    state: State<T>,
    faulted: bool,
}

/// A send operation's phase, together with the item while the operation
/// holds it.
enum State<T> {
    Idle(T),
    Waiting,
    Done,
}

impl<T> Sender<T> {
    /// The sending half over its handle on the shared state and its storage.
    pub(crate) fn new(inner: Joint<Inner<T>>, storage: Storage<T>) -> (sender: Self)
        ensures
            sender.issued() == 0,
    {
        Sender { inner, storage, issued: 0 }
    }

    /// The ticket of the last operation that this sender began, 0 before the
    /// first.
    pub closed spec fn issued(&self) -> usize {
        self.issued
    }

    /// Begins to send `item`. The operation that is returned has done
    /// nothing yet: it holds the item, under the next ticket of this sender.
    pub fn send(&mut self, item: T) -> (op: SendOp<'_, T>)
        ensures
            op.phase() == Phase::Idle,
            op.item() == Some(item),
            op.ticket() == next_ticket(old(self).issued()),
            !op.faulted(),
            final(self).issued() == op.ticket(),
    {
        let ticket = advance(self.issued);
        self.issued = ticket;
        SendOp {
            inner: &self.inner,
            storage: &self.storage,
            ticket,
            state: State::Idle(item),
            faulted: false,
        }
    }
}

impl<'a, T> SendOp<'a, T> {
    /// Where the operation stands.
    pub closed spec fn phase(&self) -> Phase {
        match self.state {
            State::Idle(_) => Phase::Idle,
            State::Waiting => Phase::Waiting,
            State::Done => Phase::Done,
        }
    }

    /// The item that the operation holds itself: the one to be sent, while
    /// the operation is idle.
    pub closed spec fn item(&self) -> Option<T> {
        match self.state {
            State::Idle(item) => Some(item),
            _ => None,
        }
    }

    /// The ticket under which the operation publishes.
    pub closed spec fn ticket(&self) -> usize {
        self.ticket
    }

    /// Whether the operation has met a fault: a foreign ticket in the slot
    /// while its own was on offer.
    pub closed spec fn faulted(&self) -> bool {
        self.faulted
    }

    /// Where the operation stands.
    pub fn current_phase(&self) -> (phase: Phase)
        ensures
            phase == self.phase(),
        opens_invariants none
        no_unwind
    {
        match self.state {
            State::Idle(_) => Phase::Idle,
            State::Waiting => Phase::Waiting,
            State::Done => Phase::Done,
        }
    }

    /// Whether the operation has met a fault. The protocol never leads to
    /// one. The poll that meets one suspends without a further step on the
    /// slot or the storage; a later poll reclaims again.
    pub fn has_faulted(&self) -> (faulted: bool)
        ensures
            faulted == self.faulted(),
    {
        self.faulted
    }

    /// Leaves the operation in `state` and returns the state it was in.
    fn enter(&mut self, state: State<T>) -> (previous: State<T>)
        ensures
            previous == old(self).state,
            final(self).state == state,
            final(self).ticket == old(self).ticket,
            final(self).faulted == old(self).faulted,
            final(self).inner == old(self).inner,
            final(self).storage == old(self).storage,
    {
        let mut state = state;
        std::mem::swap(&mut self.state, &mut state);
        state
    }

    /// Stays suspended, but asks to be polled again soon.
    fn give_way(&self, waker: &Waker) -> (poll: Poll<Result<(), SendError<T>>>)
        ensures
            poll is Pending,
    {
        waker.wake_by_ref();
        Poll::Pending
    }

    /// What follows the attempt to put the item into the storage. An item
    /// that is in is published, and the send suspends until it is taken. An
    /// item that came back, because the storage was busy, stays with the
    /// operation, which gives way.
    fn after_put(
        &mut self,
        put: Result<Option<T>, Option<T>>,
        inner: &Inner<T>,
        waker: &Waker,
    ) -> (poll: Poll<Result<(), SendError<T>>>)
        requires
            old(self).phase() == Phase::Waiting,
            put is Err ==> put->Err_0 is Some,
        ensures
            poll is Pending,
            final(self).ticket() == old(self).ticket(),
            final(self).faulted() == old(self).faulted(),
            put is Ok ==> final(self).phase() == Phase::Waiting,
            put is Err ==> final(self).phase() == Phase::Idle && final(self).item()
                == put->Err_0,
    {
        match put {
            Ok(_) => {
                inner.publish(self.ticket);
                Poll::Pending
            },
            Err(Some(item)) => {
                self.state = State::Idle(item);
                self.give_way(waker)
            },
            Err(None) => unreached(),
        }
    }

    /// The offer, on a connected channel: registers `waker`, puts the item
    /// into the storage, publishes the ticket and suspends.
    fn offer(&mut self, inner: &Inner<T>, waker: &Waker) -> (poll: Poll<Result<(), SendError<T>>>)
        requires
            old(self).phase() == Phase::Idle,
        ensures
            poll is Pending,
            final(self).ticket() == old(self).ticket(),
            final(self).faulted() == old(self).faulted(),
            final(self).phase() == Phase::Waiting || (final(self).phase() == Phase::Idle
                && final(self).item() == old(self).item()),
    {
        inner.sender_waker().register(waker);
        let item = match self.enter(State::Waiting) {
            State::Idle(item) => item,
            _ => unreached(),
        };
        let put = self.storage.exchange(Some(item));
        self.after_put(put, inner, waker)
    }

    /// What follows the look into the reclaimed storage: success if the
    /// item is gone, a new offer of the item if it is still there, and the
    /// old offer again if the storage could not be looked into.
    fn settle(&mut self, next: AfterReclaim<T>, inner: &Inner<T>, waker: &Waker) -> (poll: Poll<
        Result<(), SendError<T>>,
    >)
        requires
            old(self).phase() == Phase::Waiting,
        ensures
            final(self).ticket() == old(self).ticket(),
            final(self).faulted() == old(self).faulted(),
            match next {
                AfterReclaim::Succeed => poll == Poll::Ready(Ok::<(), SendError<T>>(()))
                    && final(self).phase() == Phase::Done,
                AfterReclaim::Offer(item) => poll is Pending && (final(self).phase()
                    == Phase::Waiting || (final(self).phase() == Phase::Idle && final(self).item() == Some(item))),
                AfterReclaim::Republish => poll is Pending && final(self).phase()
                    == Phase::Waiting,
            },
    {
        match next {
            AfterReclaim::Succeed => {
                self.state = State::Done;
                Poll::Ready(Ok(()))
            },
            AfterReclaim::Offer(item) => {
                self.state = State::Idle(item);
                self.offer(inner, waker)
            },
            AfterReclaim::Republish => {
                inner.publish(self.ticket);
                self.give_way(waker)
            },
        }
    }

    /// What follows the reclaim. With the storage reclaimed, the look into
    /// it decides. After an inconclusive reclaim the operation gives way
    /// and reclaims again at the next poll. On a foreign ticket it records
    /// the fault and suspends, without a further step on slot or storage.
    fn follow_reclaim(&mut self, last: ReclaimStep, inner: &Inner<T>, waker: &Waker) -> (poll:
        Poll<Result<(), SendError<T>>>)
        requires
            old(self).phase() == Phase::Waiting,
        ensures
            final(self).ticket() == old(self).ticket(),
            poll is Ready <==> final(self).phase() == Phase::Done,
            poll is Ready ==> poll == Poll::Ready(Ok::<(), SendError<T>>(())) && last
                == ReclaimStep::Reclaimed,
            inconclusive(last) || last == ReclaimStep::Foreign ==> final(self).phase()
                == Phase::Waiting,
            final(self).faulted() == (old(self).faulted() || last == ReclaimStep::Foreign),
    {
        match last {
            ReclaimStep::Reclaimed => {
                let stored = self.storage.exchange(None);
                self.settle(inspect(stored), inner, waker)
            },
            ReclaimStep::Foreign => {
                self.faulted = true;
                Poll::Pending
            },
            ReclaimStep::Spurious => self.give_way(waker),
            ReclaimStep::OnLoan => self.give_way(waker),
        }
    }

    /// What follows the look into the storage of a send that waits on a
    /// disconnected channel: the send ends on what the storage held, or
    /// gives way if the storage could not be looked into.
    fn resolve_from(&mut self, stored: Result<Option<T>, Option<T>>, waker: &Waker) -> (poll:
        Poll<Result<(), SendError<T>>>)
        requires
            old(self).phase() == Phase::Waiting,
        ensures
            final(self).ticket() == old(self).ticket(),
            final(self).faulted() == old(self).faulted(),
            match after_disconnect(stored) {
                Some(outcome) => poll == Poll::Ready(outcome) && final(self).phase()
                    == Phase::Done,
                None => poll is Pending && final(self).phase() == Phase::Waiting,
            },
    {
        match settle_disconnected(stored) {
            Some(outcome) => {
                self.state = State::Done;
                Poll::Ready(outcome)
            },
            None => self.give_way(waker),
        }
    }

    /// Ends the operation on a disconnected channel. The receiver is gone,
    /// so whatever the storage holds is this operation's alone: a send that
    /// still holds its item fails with it, and a send that waits ends on
    /// what its storage holds.
    fn resolve(&mut self, waker: &Waker) -> (poll: Poll<Result<(), SendError<T>>>)
        requires
            old(self).phase() != Phase::Done,
        ensures
            final(self).ticket() == old(self).ticket(),
            final(self).faulted() == old(self).faulted(),
            poll is Ready <==> final(self).phase() == Phase::Done,
            poll is Pending ==> final(self).phase() == Phase::Waiting,
            old(self).phase() == Phase::Idle ==> poll == Poll::Ready(
                Err::<(), SendError<T>>(SendError(old(self).item().unwrap())),
            ),
    {
        match self.enter(State::Waiting) {
            State::Idle(item) => {
                self.state = State::Done;
                Poll::Ready(Err(SendError(item)))
            },
            _ => {
                let stored = self.storage.exchange(None);
                self.resolve_from(stored, waker)
            },
        }
    }

    /// What follows the request for access to the shared state. Without
    /// access the channel is disconnected and the operation ends. With it, a
    /// send that holds its item offers it and suspends, and a send that
    /// waits reclaims its storage and goes by what it finds.
    fn proceed(&mut self, access: Option<JointLock<'a, Inner<T>>>, waker: &Waker) -> (poll: Poll<
        Result<(), SendError<T>>,
    >)
        requires
            old(self).phase() != Phase::Done,
        ensures
            final(self).ticket() == old(self).ticket(),
            old(self).faulted() ==> final(self).faulted(),
            poll is Ready <==> final(self).phase() == Phase::Done,
            old(self).phase() == Phase::Idle ==> if access is None {
                poll == Poll::Ready(Err::<(), SendError<T>>(SendError(old(self).item().unwrap())))
            } else {
                poll is Pending && (final(self).phase() == Phase::Waiting || final(self).item()
                    == old(self).item())
            },
            old(self).phase() == Phase::Idle ==> final(self).faulted() == old(self).faulted(),
            old(self).phase() == Phase::Waiting && access is None ==> final(self).faulted()
                == old(self).faulted() && (poll is Pending ==> final(self).phase()
                == Phase::Waiting),
            old(self).phase() == Phase::Waiting && access is Some && poll is Ready ==> poll
                == Poll::Ready(Ok::<(), SendError<T>>(())),
    {
        match access {
            None => self.resolve(waker),
            Some(access) => {
                let inner = joint::get(&access);
                match self.current_phase() {
                    Phase::Waiting => {
                        let last = inner.reclaim_sent_item_pointer(self.ticket, POLL_PATIENCE);
                        self.follow_reclaim(last, inner, waker)
                    },
                    _ => self.offer(inner, waker),
                }
            },
        }
    }

    /// Drives the send one step.
    ///
    /// On a disconnected channel the operation ends: a send that still
    /// holds its item fails with it, and one that waits ends on what its
    /// storage holds, in success if the item was taken and else with the
    /// item as the error. On a connected channel a send that holds its item
    /// registers `waker`, publishes and suspends; one that waits reclaims
    /// its storage first, ends in success if the item is gone, and offers
    /// the item again if it is not.
    ///
    /// The first poll therefore never succeeds, and if it fails it returns
    /// the very item that was to be sent. A send that has published ends in
    /// failure only on a disconnected channel.
    ///
    /// `waker` must not unwind when it is cloned, woken or dropped.
    pub fn poll(&mut self, waker: &Waker) -> (poll: Poll<Result<(), SendError<T>>>)
        requires
            old(self).phase() != Phase::Done,
        ensures
            final(self).ticket() == old(self).ticket(),
            old(self).faulted() ==> final(self).faulted(),
            poll is Ready <==> final(self).phase() == Phase::Done,
            old(self).phase() == Phase::Idle ==> final(self).faulted() == old(self).faulted(),
            old(self).phase() == Phase::Idle && poll is Ready ==> poll == Poll::Ready(
                Err::<(), SendError<T>>(SendError(old(self).item().unwrap())),
            ),
            old(self).phase() == Phase::Idle && final(self).phase() == Phase::Idle
                ==> final(self).item() == old(self).item(),
    {
        let access = joint::lock(self.inner);
        self.proceed(access, waker)
    }
}

impl<'a, T> SendOp<'a, T> {
    /// The withdrawal's part on the shared state, given the outcome of the
    /// request for access: with access it clears the sender's registration
    /// and reclaims, with all the patience there is; without, there is
    /// nothing to reach. Returns what the reclaim came to.
    fn retract(&self, access: Option<JointLock<'a, Inner<T>>>) -> (last: Option<ReclaimStep>)
        ensures
            last is None <==> access is None,
            last matches Some(step) ==> exists|attempts: Seq<Result<usize, usize>>|
                reclaim_run(attempts, self.ticket(), usize::MAX, step),
        opens_invariants none
        no_unwind
    {
        match access {
            Some(access) => {
                let inner = joint::get(&access);
                clear(inner.sender_waker());
                let step = inner.reclaim_sent_item_pointer(self.ticket, usize::MAX);
                proof {
                    let told = choose|attempts: Seq<Result<usize, usize>>|
                        reclaim_run(attempts, self.ticket, usize::MAX, step);
                    assert(reclaim_run(told, self.ticket(), usize::MAX, step));
                }
                Some(step)
            },
            None => None,
        }
    }
}

impl<'a, T> Drop for SendOp<'a, T> {
    /// Abandons the send. Only an operation that waits has anything to
    /// withdraw: its registration and its offer. Once it has its storage
    /// back, or at once on a disconnected channel, it empties the storage,
    /// so that the item of a send that was given up is never delivered. The
    /// operation itself stays as it is.
    fn drop(&mut self)
        ensures
            final(self).phase() == old(self).phase(),
            final(self).item() == old(self).item(),
            final(self).ticket() == old(self).ticket(),
            final(self).faulted() == old(self).faulted(),
        opens_invariants none
        no_unwind
    {
        if withdraws(self.current_phase()) {
            let last = self.retract(joint::lock(self.inner));
            if empties_storage(last) {
                let _ = self.storage.exchange(None);
            }
        }
    }
}

} // verus!
