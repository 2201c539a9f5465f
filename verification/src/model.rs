//! The protocol as a transition system.
//!
//! A `World` is the state of one channel together with its two tasks. Each
//! `Step` is one indivisible action of one side: one operation on the slot,
//! on the storage, on a wake registry or on a handle. The sender and the
//! receiver take their steps in any order, so a run of the system is an
//! interleaving of the two handles' polls and drops, cut at every point at
//! which the other side can act.
//!
//! Items are named by the ticket of the send operation that offers them.
//!
//! The system is a description of the handles, not a consequence of them: it
//! follows their code call by call and decides by the same functions
//! (`reclaim_step`, `restore_step`, `after_reclaim`, `after_disconnect`,
//! `after_take`, `has_offer`, `storage_is_mine`, `over`, `next_ticket`), but
//! no proof ties the handles to it.
//!
//! A send operation may also be leaked: given up without its destructor, so
//! that its offer stays in the slot and its item in the storage. Only after
//! a leak can one side find the other inside the storage; the steps that
//! touch the storage then come in a second form, `busy`, in which they find
//! it so.
//!
//! The system makes two assumptions. A withdrawal repeats its reclaim until
//! the receiver has handed the storage back. And a sender begins fewer
//! operations than there are tickets.

use crate::error::after_disconnect;
use crate::error::disconnected_outcome;
use crate::error::SendError;
use crate::receiver::after_take;
use crate::receiver::delivery;
use crate::receiver::AfterTake;
use crate::receiver::over;
use crate::sender::after_reclaim;
use crate::sender::has_offer;
use crate::sender::storage_is_mine;
use crate::sender::AfterReclaim;
use crate::sender::Phase;
use crate::slot::inconclusive;
use crate::slot::next_ticket;
use crate::slot::reclaim_step;
use crate::slot::restore_step;
use crate::slot::ReclaimStep;
use crate::slot::RestoreStep;
use crate::slot::EMPTY;
use std::task::Poll;
use vstd::prelude::*;

verus! {

/// Where the sender's task stands inside a poll or a withdrawal.
#[derive(PartialEq, Eq, Structural)]
pub enum SendAt {
    /// Outside of any poll.
    Parked,
    /// In a poll, about to take the ticket out of the slot.
    Reclaim,
    /// In a poll, about to look into the reclaimed storage.
    Inspect,
    /// In a poll, about to register for a wakeup.
    Register,
    /// In a poll, about to put the item into the storage.
    Put,
    /// In a poll, about to store the ticket in the slot.
    Store,
    /// In a poll, about to wake the receiver.
    Wake,
    /// In a withdrawal, about to clear the registration.
    CancelClear,
    /// In a withdrawal, about to take the ticket out of the slot.
    CancelReclaim,
    /// In a withdrawal, about to empty the storage.
    CancelEmpty,
}

/// Where the receiver's task stands inside a poll.
#[derive(PartialEq, Eq, Structural)]
pub enum RecvAt {
    /// Outside of any poll.
    Parked,
    /// About to register for a wakeup.
    Register,
    /// About to empty the slot.
    Swap,
    /// About to extract what the borrowed storage holds.
    Extract,
    /// About to put the borrowed ticket back.
    Restore,
    /// About to wake the sender.
    Wake,
}

/// The state of a channel and of the two tasks that use it.
pub struct World {
    /// The handoff slot.
    pub slot: usize,
    /// The item that lies in the storage, by its ticket.
    pub cell: Option<usize>,
    /// Whether the sender's wake registry holds a registration.
    pub sender_registered: bool,
    /// Whether the receiver's wake registry holds a registration.
    pub receiver_registered: bool,
    /// Whether the sending handle exists.
    pub sender_alive: bool,
    /// Whether the receiving handle exists.
    pub receiver_alive: bool,
    /// The ticket of the last send operation that was begun.
    pub issued: usize,
    /// The phase of the current send operation, if there is one.
    pub op: Option<Phase>,
    /// The item that the current operation holds while it is idle.
    pub hand: usize,
    /// Where the sender's task stands.
    pub send_at: SendAt,
    /// The last poll of the send operation left it suspended.
    pub sender_waiting: bool,
    /// The sender's task has been woken since its last poll began.
    pub sender_notified: bool,
    /// What the last poll of a send operation returned.
    pub sent: Poll<Result<(), SendError<usize>>>,
    /// Where the receiver's task stands.
    pub recv_at: RecvAt,
    /// The ticket that the receiver has taken out of the slot.
    pub borrowed: usize,
    /// What the receiver's current take extracted.
    pub extracted: Option<usize>,
    /// The last poll of the receiver left it suspended.
    pub receiver_waiting: bool,
    /// The receiver's task has been woken since its last poll began.
    pub receiver_notified: bool,
    /// The receiver has seen the end of the sequence.
    pub receiver_ended: bool,
    /// What the last poll of the receiver returned.
    pub got: Poll<Option<usize>>,
    /// The items that the receiver has taken, in the order of the takes.
    pub received: Seq<usize>,
    /// How each send operation that was polled to its end has ended.
    pub ended: Map<usize, Result<(), SendError<usize>>>,
    /// A send operation has been leaked.
    pub leaked: bool,
}

/// One indivisible action of one side.
pub enum Step {
    /// `Sender::send`: the sender begins an operation, which holds its item.
    BeginSend,
    /// `SendOp::poll` begins and asks for access to the shared state. Without
    /// a receiver the operation ends here, on what it holds or on what the
    /// storage holds; finding the storage busy, it gives way.
    SendPoll { busy: bool },
    /// One attempt of the poll's reclaim on the slot. The attempt may fail
    /// spuriously, and after an inconclusive attempt the poll may give way:
    /// it wakes its own task and returns. On a foreign ticket the poll
    /// returns without more, and stays suspended.
    SendReclaim { spurious: bool, give_way: bool },
    /// The poll looks into the reclaimed storage: the operation ends in
    /// success if the item is gone and takes the item back if it is not.
    /// Finding the storage busy, the poll publishes again and gives way.
    SendInspect { busy: bool },
    /// The poll registers the sender's waker.
    SendRegister,
    /// The poll puts the item into the storage. Finding the storage busy,
    /// it keeps the item and gives way.
    SendPut { busy: bool },
    /// The poll stores the ticket in the slot.
    SendStore,
    /// The poll wakes the receiver and returns, suspended.
    SendWake,
    /// The send operation is dropped. One that waits begins its withdrawal
    /// on a channel that is connected, and empties its storage on one that
    /// is not, unless it finds the storage busy.
    EndSend { busy: bool },
    /// The send operation is given up without being dropped.
    LeakSend,
    /// The withdrawal clears the sender's registration.
    CancelClear,
    /// One attempt of the withdrawal's reclaim on the slot. On a foreign
    /// ticket the withdrawal ends and leaves the storage as it is.
    CancelReclaim { spurious: bool },
    /// The withdrawal empties the storage, unless it finds it busy.
    CancelEmpty { busy: bool },
    /// The sending handle is dropped.
    DropSender,
    /// `Receiver::poll_next` begins and asks for access to the shared state.
    /// Without a sender the sequence ends here.
    RecvPoll,
    /// The poll registers the receiver's waker.
    RecvRegister,
    /// The take empties the slot. If the slot was empty before, the poll
    /// returns, suspended.
    RecvSwap,
    /// The take extracts what the storage holds, or nothing if it finds the
    /// storage busy.
    RecvExtract { busy: bool },
    /// The take puts the ticket back. If that fails on a newer offer, a take
    /// that extracted an item returns it, and one that extracted nothing
    /// takes again, or gives way if the poll may take `left` = 0 more times.
    RecvRestore { left: usize },
    /// The take wakes the sender, and the poll returns what was extracted.
    RecvWake,
    /// A receive that is under way is dropped, and with it the receiver's
    /// registration.
    AbandonRecv,
    /// The receiving handle is dropped.
    DropReceiver,
}

impl World {
    /// A fresh channel.
    pub open spec fn initial() -> World {
        World {
            slot: EMPTY,
            cell: None,
            sender_registered: false,
            receiver_registered: false,
            sender_alive: true,
            receiver_alive: true,
            issued: 0,
            op: None,
            hand: 0,
            send_at: SendAt::Parked,
            sender_waiting: false,
            sender_notified: false,
            sent: Poll::Pending,
            recv_at: RecvAt::Parked,
            borrowed: EMPTY,
            extracted: None,
            receiver_waiting: false,
            receiver_notified: false,
            receiver_ended: false,
            got: Poll::Pending,
            received: Seq::empty(),
            ended: Map::empty(),
            leaked: false,
        }
    }

    /// The sender is at a point at which it reaches into the storage.
    pub open spec fn sender_in_storage(self) -> bool {
        self.send_at == SendAt::Inspect || self.send_at == SendAt::Put || self.send_at
            == SendAt::CancelEmpty
    }

    /// The receiver is at the point at which it reaches into the storage.
    pub open spec fn receiver_in_storage(self) -> bool {
        self.recv_at == RecvAt::Extract
    }

    /// The sender holds access to the shared state.
    pub open spec fn sender_locked(self) -> bool {
        self.send_at != SendAt::Parked && self.send_at != SendAt::CancelEmpty
    }

    /// The receiver holds access to the shared state.
    pub open spec fn receiver_locked(self) -> bool {
        self.recv_at != RecvAt::Parked
    }

    /// The shared state exists: both handles do, or one of them is in the
    /// middle of an access.
    pub open spec fn shared_alive(self) -> bool {
        (self.sender_alive && self.receiver_alive) || self.sender_locked()
            || self.receiver_locked()
    }

    /// The receiver has the sender's storage on loan.
    pub open spec fn on_loan(self) -> bool {
        self.recv_at == RecvAt::Extract || self.recv_at == RecvAt::Restore
    }

    /// The item of the current send operation has been taken.
    pub open spec fn taken(self) -> bool {
        self.received.len() > 0 && self.received.last() == self.issued
    }

    /// A wake on the sender's registry.
    pub open spec fn wake_sender(self) -> World {
        World {
            sender_registered: false,
            sender_notified: self.sender_notified || self.sender_registered,
            ..self
        }
    }

    /// A wake on the receiver's registry.
    pub open spec fn wake_receiver(self) -> World {
        World {
            receiver_registered: false,
            receiver_notified: self.receiver_notified || self.receiver_registered,
            ..self
        }
    }

    /// What follows an access or a handle coming to its end: if the shared
    /// state does not exist any more, its last act has woken both sides.
    pub open spec fn released(self) -> World {
        if self.shared_alive() {
            self
        } else {
            self.wake_sender().wake_receiver()
        }
    }

    /// The end of a poll of the send operation.
    pub open spec fn send_returns(self, sent: Poll<Result<(), SendError<usize>>>) -> World {
        World {
            send_at: SendAt::Parked,
            sent,
            sender_waiting: sent is Pending,
            op: if sent is Ready { Some(Phase::Done) } else { self.op },
            ended: match sent {
                Poll::Ready(outcome) => self.ended.insert(self.issued, outcome),
                Poll::Pending => self.ended,
            },
            ..self
        }.released()
    }

    /// The end of a poll of the receiver.
    pub open spec fn recv_returns(self, got: Poll<Option<usize>>) -> World {
        World {
            recv_at: RecvAt::Parked,
            got,
            receiver_waiting: got is Pending,
            receiver_ended: self.receiver_ended || got == Poll::Ready(None::<usize>),
            ..self
        }.released()
    }

    /// What a weak compare-and-swap from `current` to `new` returns on the
    /// slot, and what it leaves there.
    pub open spec fn exchange(self, current: usize, new: usize, spurious: bool) -> (
        Result<usize, usize>,
        World,
    ) {
        if self.slot == current && !spurious {
            (Ok(self.slot), World { slot: new, ..self })
        } else {
            (Err(self.slot), self)
        }
    }

    /// Whether `step` can be taken.
    pub open spec fn enabled(self, step: Step) -> bool {
        match step {
            Step::BeginSend => self.sender_alive && self.op is None && self.send_at
                == SendAt::Parked && self.issued < usize::MAX,
            Step::SendPoll { busy } => self.send_at == SendAt::Parked && self.op is Some
                && self.op != Some(Phase::Done) && (busy ==> self.receiver_in_storage()),
            Step::SendReclaim { .. } => self.send_at == SendAt::Reclaim,
            Step::SendInspect { busy } => self.send_at == SendAt::Inspect && (busy
                ==> self.receiver_in_storage()),
            Step::SendRegister => self.send_at == SendAt::Register,
            Step::SendPut { busy } => self.send_at == SendAt::Put && (busy
                ==> self.receiver_in_storage()),
            Step::SendStore => self.send_at == SendAt::Store,
            Step::SendWake => self.send_at == SendAt::Wake,
            Step::EndSend { busy } => self.send_at == SendAt::Parked && self.op is Some && (busy
                ==> self.receiver_in_storage()),
            Step::LeakSend => self.send_at == SendAt::Parked && self.op is Some,
            Step::CancelClear => self.send_at == SendAt::CancelClear,
            Step::CancelReclaim { .. } => self.send_at == SendAt::CancelReclaim,
            Step::CancelEmpty { busy } => self.send_at == SendAt::CancelEmpty && (busy
                ==> self.receiver_in_storage()),
            Step::DropSender => self.sender_alive && self.op is None && self.send_at
                == SendAt::Parked,
            Step::RecvPoll => self.receiver_alive && self.recv_at == RecvAt::Parked,
            Step::RecvRegister => self.recv_at == RecvAt::Register,
            Step::RecvSwap => self.recv_at == RecvAt::Swap,
            Step::RecvExtract { busy } => self.recv_at == RecvAt::Extract && (busy
                ==> self.sender_in_storage()),
            Step::RecvRestore { .. } => self.recv_at == RecvAt::Restore,
            Step::RecvWake => self.recv_at == RecvAt::Wake,
            Step::AbandonRecv => self.receiver_alive && self.recv_at == RecvAt::Parked,
            Step::DropReceiver => self.receiver_alive && self.recv_at == RecvAt::Parked,
        }
    }

    /// The state after `step`.
    pub open spec fn after(self, step: Step) -> World {
        match step {
            Step::BeginSend => World {
                issued: next_ticket(self.issued),
                hand: next_ticket(self.issued),
                op: Some(Phase::Idle),
                sender_waiting: false,
                ..self
            },
            Step::SendPoll { busy } => {
                let polled = World { sender_notified: false, sender_waiting: false, ..self };
                if !self.receiver_alive {
                    if self.op == Some(Phase::Idle) {
                        polled.send_returns(Poll::Ready(disconnected_outcome(Some(self.hand))))
                    } else {
                        let stored = if busy {
                            Err(None)
                        } else {
                            Ok(self.cell)
                        };
                        match after_disconnect(stored) {
                            Some(outcome) => World { cell: None, ..polled }.send_returns(
                                Poll::Ready(outcome),
                            ),
                            None => World { sender_notified: true, ..polled }.send_returns(
                                Poll::Pending,
                            ),
                        }
                    }
                } else if self.op == Some(Phase::Waiting) {
                    World { send_at: SendAt::Reclaim, ..polled }
                } else {
                    World { send_at: SendAt::Register, ..polled }
                }
            },
            Step::SendReclaim { spurious, give_way } => {
                let (observed, exchanged) = self.exchange(self.issued, EMPTY, spurious);
                match reclaim_step(observed, self.issued) {
                    ReclaimStep::Reclaimed => World { send_at: SendAt::Inspect, ..exchanged },
                    ReclaimStep::Foreign => exchanged.send_returns(Poll::Pending),
                    ReclaimStep::Spurious | ReclaimStep::OnLoan => if give_way {
                        World { sender_notified: true, ..exchanged }.send_returns(Poll::Pending)
                    } else {
                        exchanged
                    },
                }
            },
            Step::SendInspect { busy } => {
                let stored = if busy {
                    Err(None)
                } else {
                    Ok(self.cell)
                };
                match after_reclaim(stored) {
                    AfterReclaim::Succeed => self.send_returns(Poll::Ready(Ok(()))),
                    AfterReclaim::Offer(item) => World {
                        cell: None,
                        hand: item,
                        op: Some(Phase::Idle),
                        send_at: SendAt::Register,
                        ..self
                    },
                    AfterReclaim::Republish => World {
                        send_at: SendAt::Store,
                        sender_notified: true,
                        ..self
                    },
                }
            },
            Step::SendRegister => World { sender_registered: true, send_at: SendAt::Put, ..self },
            Step::SendPut { busy } => if busy {
                World { sender_notified: true, ..self }.send_returns(Poll::Pending)
            } else {
                World {
                    cell: Some(self.hand),
                    op: Some(Phase::Waiting),
                    send_at: SendAt::Store,
                    ..self
                }
            },
            Step::SendStore => World { slot: self.issued, send_at: SendAt::Wake, ..self },
            Step::SendWake => self.wake_receiver().send_returns(Poll::Pending),
            Step::EndSend { busy } => if self.op is Some && has_offer(self.op->0) {
                if self.receiver_alive {
                    World { send_at: SendAt::CancelClear, sender_waiting: false, ..self }
                } else {
                    World {
                        cell: if storage_is_mine(None) && !busy { None } else { self.cell },
                        op: None,
                        sender_waiting: false,
                        ..self
                    }
                }
            } else {
                World { op: None, sender_waiting: false, ..self }
            },
            Step::LeakSend => World { op: None, sender_waiting: false, leaked: true, ..self },
            Step::CancelClear => World {
                sender_registered: false,
                send_at: SendAt::CancelReclaim,
                ..self
            },
            Step::CancelReclaim { spurious } => {
                let (observed, exchanged) = self.exchange(self.issued, EMPTY, spurious);
                let last = reclaim_step(observed, self.issued);
                if inconclusive(last) {
                    exchanged
                } else if storage_is_mine(Some(last)) {
                    World { send_at: SendAt::CancelEmpty, ..exchanged }.released()
                } else {
                    World { op: None, send_at: SendAt::Parked, ..exchanged }.released()
                }
            },
            Step::CancelEmpty { busy } => World {
                cell: if busy { self.cell } else { None },
                op: None,
                send_at: SendAt::Parked,
                ..self
            },
            Step::DropSender => World { sender_alive: false, ..self }.released(),
            Step::RecvPoll => {
                let polled = World { receiver_notified: false, receiver_waiting: false, ..self };
                if over(self.receiver_ended, self.sender_alive) {
                    polled.recv_returns(Poll::Ready(None))
                } else {
                    World { recv_at: RecvAt::Register, ..polled }
                }
            },
            Step::RecvRegister => World {
                receiver_registered: true,
                recv_at: RecvAt::Swap,
                ..self
            },
            Step::RecvSwap => if self.slot == EMPTY {
                self.recv_returns(Poll::Pending)
            } else {
                World { slot: EMPTY, borrowed: self.slot, recv_at: RecvAt::Extract, ..self }
            },
            Step::RecvExtract { busy } => if busy {
                World { extracted: None, recv_at: RecvAt::Restore, ..self }
            } else {
                World {
                    cell: None,
                    extracted: self.cell,
                    received: match self.cell {
                        Some(item) => self.received.push(item),
                        None => self.received,
                    },
                    recv_at: RecvAt::Restore,
                    ..self
                }
            },
            Step::RecvRestore { left } => {
                let (observed, exchanged) = self.exchange(EMPTY, self.borrowed, false);
                let end = restore_step(observed, self.borrowed, self.extracted is Some);
                if end == RestoreStep::Restored {
                    World { recv_at: RecvAt::Wake, ..exchanged }
                } else {
                    match after_take(self.extracted, Some(end), left) {
                        AfterTake::Return(got) => exchanged.recv_returns(got),
                        AfterTake::TakeAgain => World { recv_at: RecvAt::Swap, ..exchanged },
                        AfterTake::GiveWay => World {
                            receiver_notified: true,
                            ..exchanged
                        }.recv_returns(Poll::Pending),
                    }
                }
            },
            Step::RecvWake => self.wake_sender().recv_returns(delivery(self.extracted)),
            Step::AbandonRecv => World {
                receiver_registered: false,
                receiver_waiting: false,
                ..self
            },
            Step::DropReceiver => World {
                receiver_registered: false,
                receiver_waiting: false,
                receiver_alive: false,
                ..self
            }.released(),
        }
    }

}

/// The state that a fresh channel is in after `steps`, taken one after the
/// other.
#[verifier::opaque]
pub open spec fn run(steps: Seq<Step>) -> World
    decreases steps.len(),
{
    if steps.len() == 0 {
        World::initial()
    } else {
        run(steps.drop_last()).after(steps.last())
    }
}

/// Whether a fresh channel can take `steps` one after the other.
#[verifier::opaque]
pub open spec fn possible(steps: Seq<Step>) -> bool
    decreases steps.len(),
{
    steps.len() == 0 || (possible(steps.drop_last()) && run(steps.drop_last()).enabled(
        steps.last(),
    ))
}

} // verus!
