//! What the protocol guarantees, proved of every state that the transition
//! system of `model` can reach.
//!
//! `World::safe` is the invariant. One part of it, `World::sound`, holds of
//! every run: it accounts for the items and for the slot. The other part,
//! `World::orderly`, holds for as long as no send operation has been leaked:
//! it accounts for the loan of the storage and for the wakeups. One lemma
//! for each step shows that the step keeps the invariant; the laws that
//! follow it are read off the invariant.
//!
//! The laws are laws of the transition system. Nothing here proves that the
//! handles take its steps in its order: what the handles do to the slot, the
//! storage and the registries is behind shared references that the other
//! side writes as well. What links the two is that the system decides by
//! the handles' own decision functions.

use crate::error::SendError;
use crate::model::possible;
use crate::model::run;
use crate::model::RecvAt;
use crate::model::SendAt;
use crate::model::Step;
use crate::model::World;
use crate::sender::Phase;
use crate::receiver::delivery;
use crate::slot::reclaim_step;
use crate::slot::restore_step;
use crate::slot::ReclaimStep;
use crate::slot::RestoreStep;
use crate::slot::EMPTY;
use std::task::Poll;
use vstd::prelude::*;

verus! {

/// The items come in the order of their tickets, none of them twice.
pub open spec fn in_order(received: Seq<usize>) -> bool {
    forall|i: int, j: int| 0 <= i < j < received.len() ==> received[i] < received[j]
}

/// All of the items are older than `ticket`.
pub open spec fn below(received: Seq<usize>, ticket: usize) -> bool {
    forall|i: int| 0 <= i < received.len() ==> #[trigger] received[i] < ticket
}

impl World {
    /// The sender's task is inside a poll or a withdrawal and the ticket is,
    /// as far as the sender knows, on offer.
    pub open spec fn offering(self) -> bool {
        self.send_at == SendAt::Parked || self.send_at == SendAt::Wake || self.send_at
            == SendAt::Reclaim || self.send_at == SendAt::CancelClear || self.send_at
            == SendAt::CancelReclaim
    }

    /// The slot is in use: the receiver exists, or the sender is in the
    /// middle of an access.
    pub open spec fn live(self) -> bool {
        self.receiver_alive || self.sender_locked()
    }

    /// The receiver has registered in its current poll.
    pub open spec fn receiver_past_registration(self) -> bool {
        self.recv_at == RecvAt::Swap || self.recv_at == RecvAt::Extract || self.recv_at
            == RecvAt::Restore || self.recv_at == RecvAt::Wake
    }

    /// The sender has registered in its current poll.
    pub open spec fn sender_past_registration(self) -> bool {
        self.send_at == SendAt::Put || self.send_at == SendAt::Store || self.send_at
            == SendAt::Wake
    }

    /// What has been received is in order, and is made of tickets that were
    /// issued.
    pub open spec fn history_sound(self) -> bool {
        &&& in_order(self.received)
        &&& forall|i: int|
            0 <= i < self.received.len() ==> 1 <= #[trigger] self.received[i] <= self.issued
    }

    /// Every send that has ended has ended rightly: in success if its item
    /// was received, and else in the failure that gives this very item back.
    pub open spec fn outcomes_sound(self) -> bool {
        forall|k: usize| #[trigger]
            self.ended.contains_key(k) ==> {
                &&& 1 <= k <= self.issued
                &&& if self.received.contains(k) {
                    self.ended[k] == Ok::<(), SendError<usize>>(())
                } else {
                    self.ended[k] == Err::<(), SendError<usize>>(SendError(k))
                }
            }
    }

    /// Where the item of the current operation is, for each of its phases,
    /// and what else the storage may hold: the item of an operation that
    /// was leaked or could not empty the storage, which is older than the
    /// current one, newer than all that was received, and has not been
    /// reported as sent or as returned.
    pub open spec fn item_accounted(self) -> bool {
        &&& self.op is Some ==> self.sender_alive && self.issued >= 1
        &&& self.cell is Some ==> 1 <= self.cell->0 <= self.issued && below(
            self.received,
            self.cell->0,
        ) && !self.ended.contains_key(self.cell->0)
        &&& self.op == Some(Phase::Idle) ==> self.hand == self.issued && !self.taken()
            && self.cell != Some(self.issued)
        &&& self.op == Some(Phase::Waiting) ==> if self.cell is Some {
            self.cell == Some(self.issued)
        } else {
            self.taken()
        }
        &&& self.op == Some(Phase::Done) ==> self.ended.contains_key(self.issued)
        &&& self.op == Some(Phase::Idle) || self.op == Some(Phase::Waiting)
            ==> !self.ended.contains_key(self.issued)
    }

    /// Each task is at a point that fits the phase of the operation.
    pub open spec fn places_sound(self) -> bool {
        &&& self.send_at == SendAt::Reclaim || self.send_at == SendAt::Inspect || self.send_at
            == SendAt::Store || self.send_at == SendAt::Wake || self.send_at
            == SendAt::CancelClear || self.send_at == SendAt::CancelReclaim || self.send_at
            == SendAt::CancelEmpty ==> self.op == Some(Phase::Waiting)
        &&& self.send_at == SendAt::Register || self.send_at == SendAt::Put ==> self.op == Some(
            Phase::Idle,
        )
        &&& self.recv_at != RecvAt::Parked ==> self.receiver_alive && !self.receiver_ended
        &&& (self.recv_at == RecvAt::Restore || self.recv_at == RecvAt::Wake)
            && self.extracted is Some ==> self.received.len() > 0 && self.received.last()
            == self.extracted->0
        &&& self.receiver_ended ==> !self.sender_alive
        &&& self.sender_waiting ==> self.send_at == SendAt::Parked && (self.op == Some(
            Phase::Waiting,
        ) || self.op == Some(Phase::Idle))
        &&& self.receiver_waiting ==> self.recv_at == RecvAt::Parked && self.receiver_alive
        &&& !self.shared_alive() ==> !self.sender_registered && !self.receiver_registered
    }

    /// What the slot holds, leaks or not: never a ticket that was not
    /// issued, and never the ticket that the receiver has borrowed. The
    /// ticket of the current operation is there, or with the receiver,
    /// exactly while the operation has it on offer.
    pub open spec fn slot_sound(self) -> bool {
        &&& self.live() ==> self.slot <= self.issued
        &&& self.on_loan() ==> 1 <= self.borrowed <= self.issued && self.slot != self.borrowed
        &&& self.on_loan() && self.borrowed == self.issued && self.op is Some ==> self.slot
            == EMPTY && self.op == Some(Phase::Waiting) && self.offering()
        &&& self.live() && self.op == Some(Phase::Waiting) && self.offering() ==> self.slot
            == self.issued || (self.slot == EMPTY && self.on_loan() && self.borrowed
            == self.issued)
        &&& self.live() && (self.op == Some(Phase::Idle) || self.op == Some(Phase::Done) || (
            self.op == Some(Phase::Waiting) && !self.offering())) ==> self.slot < self.issued
    }

    /// What holds of every state that a channel can reach, leaks or not.
    pub open spec fn sound(self) -> bool {
        &&& self.history_sound()
        &&& self.outcomes_sound()
        &&& self.item_accounted()
        &&& self.places_sound()
        &&& self.slot_sound()
    }

    /// While nothing has been leaked, the storage holds nothing but the item
    /// of the operation that waits.
    pub open spec fn storage_tidy(self) -> bool {
        &&& self.cell is Some ==> self.op == Some(Phase::Waiting)
        &&& self.send_at == SendAt::Store ==> self.cell is Some
        &&& self.sender_waiting ==> self.op == Some(Phase::Waiting)
    }

    /// The storage has one owner at a time: an occupied slot offers the
    /// storage of the current operation, and an empty slot under an offer
    /// means that the receiver has the storage on loan.
    pub open spec fn loan_sound(self) -> bool {
        &&& self.live() ==> self.slot == EMPTY || self.slot == self.issued
        &&& self.live() && self.slot != EMPTY ==> self.op == Some(Phase::Waiting)
            && self.offering() && !self.on_loan()
        &&& self.on_loan() ==> self.slot == EMPTY && self.borrowed == self.issued && self.op
            == Some(Phase::Waiting) && self.offering()
        &&& self.live() && self.slot == EMPTY && self.op == Some(Phase::Waiting)
            && self.offering() ==> self.on_loan()
        &&& self.recv_at == RecvAt::Restore ==> self.cell is None
    }

    /// No wakeup is lost: a side that is suspended and has not been woken is
    /// registered, and whatever it waits for has not happened yet, unless
    /// the other side is just about to wake it.
    pub open spec fn wakeups_sound(self) -> bool {
        &&& self.sender_waiting && !self.sender_notified ==> self.sender_registered
        &&& self.sender_past_registration() && !self.sender_notified ==> self.sender_registered
        &&& (self.sender_waiting || self.send_at == SendAt::Wake) && !self.sender_notified
            && self.slot == self.issued && self.cell is None ==> self.recv_at == RecvAt::Wake
        &&& self.receiver_waiting && !self.receiver_notified ==> self.receiver_registered
        &&& self.receiver_past_registration() && !self.receiver_notified
            ==> self.receiver_registered
        &&& (self.receiver_waiting || self.recv_at == RecvAt::Wake) && !self.receiver_notified
            && self.slot != EMPTY && self.cell is Some ==> self.send_at == SendAt::Wake
    }

    /// What holds in addition for as long as no send operation has been
    /// leaked.
    pub open spec fn orderly(self) -> bool {
        &&& self.storage_tidy()
        &&& self.loan_sound()
        &&& self.wakeups_sound()
    }

    /// What a step does to the record of the sends that have ended: it
    /// keeps it, or it ends the current send and adds what its poll returns.
    pub open spec fn record_kept_or_extended(self, after: World) -> bool {
        ||| after.ended == self.ended && (after.op == Some(Phase::Done) ==> self.op == Some(
            Phase::Done,
        ))
        ||| {
            &&& self.op is Some && self.op != Some(Phase::Done)
            &&& after.op == Some(Phase::Done)
            &&& match after.sent {
                Poll::Ready(outcome) => after.ended == self.ended.insert(self.issued, outcome),
                Poll::Pending => false,
            }
        }
    }

    /// What holds of every state that a channel can reach.
    pub open spec fn safe(self) -> bool {
        &&& self.sound()
        &&& !self.leaked ==> self.orderly()
    }
}

/// Among items in order, the item of the current operation can only be the
/// last.
proof fn taken_means_received(world: World)
    requires
        world.history_sound(),
    ensures
        world.taken() <==> world.received.contains(world.issued),
{
    if world.taken() {
        assert(world.received[world.received.len() - 1] == world.issued);
    }
    if world.received.contains(world.issued) {
        let i = choose|i: int| 0 <= i < world.received.len() && world.received[i] == world.issued;
        let last = world.received.len() - 1;
        assert(world.received[last] <= world.issued);
        if i < last {
            assert(world.received[i] < world.received[last]);
        }
    }
}

/// What a sequence holds after one more item.
proof fn push_adds_one(items: Seq<usize>, item: usize, other: usize)
    ensures
        items.push(item).contains(other) <==> items.contains(other) || other == item,
{
    let longer = items.push(item);
    if items.contains(other) {
        let i = choose|i: int| 0 <= i < items.len() && items[i] == other;
        assert(longer[i] == other);
    }
    if other == item {
        assert(longer[items.len() as int] == other);
    }
    if longer.contains(other) {
        let i = choose|i: int| 0 <= i < longer.len() && longer[i] == other;
        if i < items.len() {
            assert(items[i] == other);
        }
    }
}

/// An operation, if there is one, is in one of three phases.
proof fn phases(world: World)
    ensures
        world.op is None || world.op == Some(Phase::Idle) || world.op == Some(Phase::Waiting)
            || world.op == Some(Phase::Done),
{
}

/// A fresh channel is safe.
pub proof fn initial_is_safe()
    ensures
        World::initial().safe(),
{
}

/// The beginning of a send keeps the state safe.
proof fn begin_send_keeps_safe(before: World)
    requires
        before.safe(),
        before.enabled(Step::BeginSend),
    ensures
        before.after(Step::BeginSend).safe(),
        before.record_kept_or_extended(before.after(Step::BeginSend)),
{
    phases(before);
}

/// The beginning of a poll of a send keeps the state safe.
proof fn send_poll_keeps_safe(before: World, busy: bool)
    requires
        before.safe(),
        before.enabled(Step::SendPoll { busy }),
    ensures
        before.after(Step::SendPoll { busy }).safe(),
        before.record_kept_or_extended(before.after(Step::SendPoll { busy })),
{
    let after = before.after(Step::SendPoll { busy });
    phases(before);
    taken_means_received(before);
    assert forall|k: usize| #[trigger] after.ended.contains_key(k) implies k == before.issued
        || before.ended.contains_key(k) by {}
}

/// A reclaim attempt of a poll keeps the state safe.
proof fn send_reclaim_keeps_safe(before: World, spurious: bool, give_way: bool)
    requires
        before.safe(),
        before.enabled(Step::SendReclaim { spurious, give_way }),
    ensures
        before.after(Step::SendReclaim { spurious, give_way }).safe(),
        before.record_kept_or_extended(before.after(Step::SendReclaim { spurious, give_way })),
{
    phases(before);
}

/// The look into the reclaimed storage keeps the state safe.
proof fn send_inspect_keeps_safe(before: World, busy: bool)
    requires
        before.safe(),
        before.enabled(Step::SendInspect { busy }),
    ensures
        before.after(Step::SendInspect { busy }).safe(),
        before.record_kept_or_extended(before.after(Step::SendInspect { busy })),
{
    phases(before);
    taken_means_received(before);
}

/// The registration of the sender keeps the state safe.
proof fn send_register_keeps_safe(before: World)
    requires
        before.safe(),
        before.enabled(Step::SendRegister),
    ensures
        before.after(Step::SendRegister).safe(),
        before.record_kept_or_extended(before.after(Step::SendRegister)),
{
    phases(before);
}

/// The item's way into the storage keeps the state safe.
proof fn send_put_keeps_safe(before: World, busy: bool)
    requires
        before.safe(),
        before.enabled(Step::SendPut { busy }),
    ensures
        before.after(Step::SendPut { busy }).safe(),
        before.record_kept_or_extended(before.after(Step::SendPut { busy })),
{
    phases(before);
}

/// The publication of the ticket keeps the state safe.
proof fn send_store_keeps_safe(before: World)
    requires
        before.safe(),
        before.enabled(Step::SendStore),
    ensures
        before.after(Step::SendStore).safe(),
        before.record_kept_or_extended(before.after(Step::SendStore)),
{
    phases(before);
}

/// The wake that ends a publication keeps the state safe.
proof fn send_wake_keeps_safe(before: World)
    requires
        before.safe(),
        before.enabled(Step::SendWake),
    ensures
        before.after(Step::SendWake).safe(),
        before.record_kept_or_extended(before.after(Step::SendWake)),
{
    phases(before);
}

/// The drop of a send operation keeps the state safe.
proof fn end_send_keeps_safe(before: World, busy: bool)
    requires
        before.safe(),
        before.enabled(Step::EndSend { busy }),
    ensures
        before.after(Step::EndSend { busy }).safe(),
        before.record_kept_or_extended(before.after(Step::EndSend { busy })),
{
    phases(before);
}

/// The leak of a send operation keeps the state safe.
proof fn leak_send_keeps_safe(before: World)
    requires
        before.safe(),
        before.enabled(Step::LeakSend),
    ensures
        before.after(Step::LeakSend).safe(),
        before.record_kept_or_extended(before.after(Step::LeakSend)),
{
    phases(before);
}

/// The first step of a withdrawal keeps the state safe.
proof fn cancel_clear_keeps_safe(before: World)
    requires
        before.safe(),
        before.enabled(Step::CancelClear),
    ensures
        before.after(Step::CancelClear).safe(),
        before.record_kept_or_extended(before.after(Step::CancelClear)),
{
    phases(before);
}

/// A reclaim attempt of a withdrawal keeps the state safe.
proof fn cancel_reclaim_keeps_safe(before: World, spurious: bool)
    requires
        before.safe(),
        before.enabled(Step::CancelReclaim { spurious }),
    ensures
        before.after(Step::CancelReclaim { spurious }).safe(),
        before.record_kept_or_extended(before.after(Step::CancelReclaim { spurious })),
{
    phases(before);
}

/// The last step of a withdrawal keeps the state safe.
proof fn cancel_empty_keeps_safe(before: World, busy: bool)
    requires
        before.safe(),
        before.enabled(Step::CancelEmpty { busy }),
    ensures
        before.after(Step::CancelEmpty { busy }).safe(),
        before.record_kept_or_extended(before.after(Step::CancelEmpty { busy })),
{
    phases(before);
}

/// The drop of the sender keeps the state safe.
proof fn drop_sender_keeps_safe(before: World)
    requires
        before.safe(),
        before.enabled(Step::DropSender),
    ensures
        before.after(Step::DropSender).safe(),
        before.record_kept_or_extended(before.after(Step::DropSender)),
{
    phases(before);
}

/// The beginning of a poll of the receiver keeps the state safe.
proof fn recv_poll_keeps_safe(before: World)
    requires
        before.safe(),
        before.enabled(Step::RecvPoll),
    ensures
        before.after(Step::RecvPoll).safe(),
        before.record_kept_or_extended(before.after(Step::RecvPoll)),
{
    phases(before);
}

/// The registration of the receiver keeps the state safe.
proof fn recv_register_keeps_safe(before: World)
    requires
        before.safe(),
        before.enabled(Step::RecvRegister),
    ensures
        before.after(Step::RecvRegister).safe(),
        before.record_kept_or_extended(before.after(Step::RecvRegister)),
{
    phases(before);
}

/// The emptying of the slot keeps the state safe.
proof fn recv_swap_keeps_safe(before: World)
    requires
        before.safe(),
        before.enabled(Step::RecvSwap),
    ensures
        before.after(Step::RecvSwap).safe(),
        before.record_kept_or_extended(before.after(Step::RecvSwap)),
{
    phases(before);
}

/// The extraction of an item keeps the state safe.
proof fn recv_extract_keeps_safe(before: World, busy: bool)
    requires
        before.safe(),
        before.enabled(Step::RecvExtract { busy }),
    ensures
        before.after(Step::RecvExtract { busy }).safe(),
        before.record_kept_or_extended(before.after(Step::RecvExtract { busy })),
{
    let after = before.after(Step::RecvExtract { busy });
    phases(before);
    taken_means_received(before);
    assert forall|k: usize| #[trigger] after.ended.contains_key(k) implies after.received.contains(k)
        == before.received.contains(k) by {
        if before.cell is Some {
            push_adds_one(before.received, before.cell->0, k);
        }
    }
}

/// The return of the ticket keeps the state safe.
proof fn recv_restore_keeps_safe(before: World, left: usize)
    requires
        before.safe(),
        before.enabled(Step::RecvRestore { left }),
    ensures
        before.after(Step::RecvRestore { left }).safe(),
        before.record_kept_or_extended(before.after(Step::RecvRestore { left })),
{
    phases(before);
}

/// The wake that ends a take keeps the state safe.
proof fn recv_wake_keeps_safe(before: World)
    requires
        before.safe(),
        before.enabled(Step::RecvWake),
    ensures
        before.after(Step::RecvWake).safe(),
        before.record_kept_or_extended(before.after(Step::RecvWake)),
{
    phases(before);
}

/// The drop of a receive keeps the state safe.
proof fn abandon_recv_keeps_safe(before: World)
    requires
        before.safe(),
        before.enabled(Step::AbandonRecv),
    ensures
        before.after(Step::AbandonRecv).safe(),
        before.record_kept_or_extended(before.after(Step::AbandonRecv)),
{
    phases(before);
}

/// The drop of the receiver keeps the state safe.
proof fn drop_receiver_keeps_safe(before: World)
    requires
        before.safe(),
        before.enabled(Step::DropReceiver),
    ensures
        before.after(Step::DropReceiver).safe(),
        before.record_kept_or_extended(before.after(Step::DropReceiver)),
{
    phases(before);
}

/// Every step leads from a safe state to a safe state, and keeps or extends
/// the record of the sends that have ended.
pub proof fn step_keeps_safe(before: World, step: Step)
    requires
        before.safe(),
        before.enabled(step),
    ensures
        before.after(step).safe(),
        before.record_kept_or_extended(before.after(step)),
{
    match step {
        Step::BeginSend => begin_send_keeps_safe(before),
        Step::SendPoll { busy } => send_poll_keeps_safe(before, busy),
        Step::SendReclaim { spurious, give_way } => send_reclaim_keeps_safe(before, spurious, give_way),
        Step::SendInspect { busy } => send_inspect_keeps_safe(before, busy),
        Step::SendRegister => send_register_keeps_safe(before),
        Step::SendPut { busy } => send_put_keeps_safe(before, busy),
        Step::SendStore => send_store_keeps_safe(before),
        Step::SendWake => send_wake_keeps_safe(before),
        Step::EndSend { busy } => end_send_keeps_safe(before, busy),
        Step::LeakSend => leak_send_keeps_safe(before),
        Step::CancelClear => cancel_clear_keeps_safe(before),
        Step::CancelReclaim { spurious } => cancel_reclaim_keeps_safe(before, spurious),
        Step::CancelEmpty { busy } => cancel_empty_keeps_safe(before, busy),
        Step::DropSender => drop_sender_keeps_safe(before),
        Step::RecvPoll => recv_poll_keeps_safe(before),
        Step::RecvRegister => recv_register_keeps_safe(before),
        Step::RecvSwap => recv_swap_keeps_safe(before),
        Step::RecvExtract { busy } => recv_extract_keeps_safe(before, busy),
        Step::RecvRestore { left } => recv_restore_keeps_safe(before, left),
        Step::RecvWake => recv_wake_keeps_safe(before),
        Step::AbandonRecv => abandon_recv_keeps_safe(before),
        Step::DropReceiver => drop_receiver_keeps_safe(before),
    }
}

/// Whatever the two sides do, and in whatever order, the channel stays in a
/// safe state.
pub proof fn every_run_is_safe(steps: Seq<Step>)
    requires
        possible(steps),
    ensures
        run(steps).safe(),
    decreases steps.len(),
{
    reveal(run);
    reveal(possible);
    if steps.len() == 0 {
        initial_is_safe();
    } else {
        every_run_is_safe(steps.drop_last());
        step_keeps_safe(run(steps.drop_last()), steps.last());
    }
}

/// In order, exactly once: the items that the receiver has taken are in the
/// order in which they were sent, each is the item of a send that was begun,
/// and none occurs twice.
pub proof fn delivery_in_order_exactly_once(steps: Seq<Step>)
    requires
        possible(steps),
    ensures
        in_order(run(steps).received),
        run(steps).received.no_duplicates(),
        forall|i: int|
            0 <= i < run(steps).received.len() ==> 1 <= #[trigger] run(steps).received[i]
                <= run(steps).issued,
{
    every_run_is_safe(steps);
    let received = run(steps).received;
    assert forall|i: int, j: int|
        0 <= i < received.len() && 0 <= j < received.len() && i != j implies received[i]
        != received[j] by {
        if i < j {
            assert(received[i] < received[j]);
        } else {
            assert(received[j] < received[i]);
        }
    }
}

/// What a poll of the receiver returns is what its take extracted, and an
/// item that it returns is the newest of the items received: the polls
/// return the items in the order of `received`, each once.
pub proof fn poll_returns_what_was_taken(steps: Seq<Step>, step: Step)
    requires
        possible(steps),
        run(steps).enabled(step),
        step is RecvWake || step is RecvRestore,
        run(steps).after(step).recv_at == RecvAt::Parked,
    ensures
        run(steps).after(step).got == delivery(run(steps).extracted),
        run(steps).after(step).received == run(steps).received,
        run(steps).extracted is Some ==> run(steps).received.len() > 0 && run(
            steps,
        ).received.last() == run(steps).extracted->0,
{
    every_run_is_safe(steps);
}

/// What the poll that ends a send returns is what is recorded of that send.
pub proof fn poll_returns_the_outcome(steps: Seq<Step>, step: Step)
    requires
        possible(steps),
        run(steps).enabled(step),
        run(steps).op != Some(Phase::Done),
        run(steps).after(step).op == Some(Phase::Done),
    ensures
        run(steps).after(step).sent is Ready,
        run(steps).after(step).ended.contains_key(run(steps).issued),
        run(steps).after(step).sent == Poll::Ready(
            run(steps).after(step).ended[run(steps).issued],
        ),
{
    every_run_is_safe(steps);
    step_keeps_safe(run(steps), step);
}

/// A send ends in success exactly if its item was received. A send that
/// fails gives back the very item that it was to send, and that item is
/// never received.
pub proof fn success_means_received(steps: Seq<Step>, ticket: usize)
    requires
        possible(steps),
        run(steps).ended.contains_key(ticket),
    ensures
        run(steps).ended[ticket] is Ok <==> run(steps).received.contains(ticket),
        run(steps).ended[ticket] is Err ==> run(steps).ended[ticket] == Err::<
            (),
            SendError<usize>,
        >(SendError(ticket)),
{
    every_run_is_safe(steps);
}

/// How a send has ended does not change afterwards, whatever happens to the
/// channel.
pub proof fn outcomes_are_final(steps: Seq<Step>, step: Step, ticket: usize)
    requires
        possible(steps),
        run(steps).enabled(step),
        run(steps).ended.contains_key(ticket),
    ensures
        run(steps).after(step).ended.contains_key(ticket),
        run(steps).after(step).ended[ticket] == run(steps).ended[ticket],
{
    every_run_is_safe(steps);
    let before = run(steps);
    step_keeps_safe(before, step);
    phases(before);
    assert(before.item_accounted());
}

/// Items in order, none below 1, lie at or above their position.
proof fn in_order_from_one(items: Seq<usize>, i: int)
    requires
        in_order(items),
        forall|j: int| 0 <= j < items.len() ==> 1 <= #[trigger] items[j],
        0 <= i < items.len(),
    ensures
        items[i] >= i + 1,
    decreases i,
{
    if i > 0 {
        in_order_from_one(items, i - 1);
        assert(items[i - 1] < items[i]);
    }
}

/// Items in order that are all the tickets from 1 to `count` lie each at
/// its own position.
proof fn in_order_and_complete(items: Seq<usize>, count: usize, ticket: usize)
    requires
        in_order(items),
        forall|j: int| 0 <= j < items.len() ==> 1 <= #[trigger] items[j] <= count,
        forall|k: usize| 1 <= k <= count ==> items.contains(k),
        1 <= ticket <= count,
    ensures
        ticket - 1 < items.len(),
        items[ticket - 1] == ticket,
    decreases ticket,
{
    assert(items.contains(ticket));
    let i = choose|i: int| 0 <= i < items.len() && items[i] == ticket;
    in_order_from_one(items, i);
    if ticket > 1 {
        let below = (ticket - 1) as usize;
        in_order_and_complete(items, count, below);
        if i < ticket - 2 {
            assert(items[i] < items[ticket - 2]);
        }
    }
}

/// If every send so far has ended in success, the receiver has taken
/// exactly the items that were sent, in the order in which they were sent.
pub proof fn all_sent_all_received(steps: Seq<Step>)
    requires
        possible(steps),
        forall|k: usize|
            1 <= k <= run(steps).issued ==> #[trigger] run(steps).ended.contains_key(k) && run(
                steps,
            ).ended[k] is Ok,
    ensures
        run(steps).received =~= Seq::new(run(steps).issued as nat, |i: int| (i + 1) as usize),
{
    every_run_is_safe(steps);
    let world = run(steps);
    let items = world.received;
    let count = world.issued;
    assert forall|k: usize| 1 <= k <= count implies items.contains(k) by {
        assert(world.ended.contains_key(k));
    }
    if count >= 1 {
        in_order_and_complete(items, count, count);
    }
    if items.len() > 0 {
        in_order_from_one(items, items.len() - 1);
    }
    assert(items.len() == count);
    assert forall|i: int| 0 <= i < items.len() implies items[i] == (i + 1) as usize by {
        in_order_and_complete(items, count, (i + 1) as usize);
    }
}

/// Once the sender is gone, the receiver's next poll ends the sequence: it
/// returns `None` and takes nothing.
pub proof fn sender_gone_ends_sequence(steps: Seq<Step>)
    requires
        possible(steps),
        run(steps).enabled(Step::RecvPoll),
        !run(steps).sender_alive,
    ensures
        run(steps).after(Step::RecvPoll).got == Poll::Ready(None::<usize>),
        run(steps).after(Step::RecvPoll).receiver_ended,
        run(steps).after(Step::RecvPoll).received == run(steps).received,
{
    every_run_is_safe(steps);
}

/// The end of the sequence is final: a receiver that has seen it sees it at
/// every later poll, whatever else happens, and takes nothing any more.
pub proof fn end_is_sticky(steps: Seq<Step>, step: Step)
    requires
        possible(steps),
        run(steps).enabled(step),
        run(steps).receiver_ended,
    ensures
        run(steps).after(step).receiver_ended,
        run(steps).after(step).received == run(steps).received,
        step == Step::RecvPoll ==> run(steps).after(step).got == Poll::Ready(None::<usize>),
{
    every_run_is_safe(steps);
}

/// Once the receiver is gone, a poll of a send ends it. A send that still
/// has its item fails, with that item as the error.
pub proof fn receiver_gone_fails_send(steps: Seq<Step>)
    requires
        possible(steps),
        run(steps).enabled(Step::SendPoll { busy: false }),
        !run(steps).receiver_alive,
    ensures
        run(steps).after(Step::SendPoll { busy: false }).sent is Ready,
        run(steps).after(Step::SendPoll { busy: false }).op == Some(Phase::Done),
        !run(steps).received.contains(run(steps).issued) ==> run(steps).after(
            Step::SendPoll { busy: false },
        ).sent == Poll::Ready(
            Err::<(), SendError<usize>>(SendError(run(steps).issued)),
        ),
        run(steps).received.contains(run(steps).issued) ==> run(steps).after(
            Step::SendPoll { busy: false },
        ).sent == Poll::Ready(Ok::<(), SendError<usize>>(())),
{
    every_run_is_safe(steps);
    let before = run(steps);
    taken_means_received(before);
    phases(before);
}

/// Nobody waits for a side that is gone. Unless a send operation was leaked:
/// when the other handle goes away, whoever is suspended has been woken by
/// the time the shared state is destroyed, and finds the channel
/// disconnected at the next poll.
pub proof fn nobody_waits_for_the_gone(steps: Seq<Step>)
    requires
        possible(steps),
        !run(steps).leaked,
    ensures
        run(steps).sender_waiting && !run(steps).receiver_alive ==> run(steps).sender_notified,
        run(steps).receiver_waiting && !run(steps).sender_alive ==> run(steps).receiver_notified,
{
    every_run_is_safe(steps);
}

/// The two sides are never both asleep. Unless a send operation was leaked:
/// whenever the send and the receiver are both suspended, at least one of
/// them has been woken and will be polled again.
pub proof fn never_both_asleep(steps: Seq<Step>)
    requires
        possible(steps),
        !run(steps).leaked,
        run(steps).sender_waiting,
        run(steps).receiver_waiting,
    ensures
        run(steps).sender_notified || run(steps).receiver_notified,
{
    every_run_is_safe(steps);
}

/// No wakeup is lost. Unless a send operation was leaked: a send that is
/// suspended and has not been woken is
/// registered, and its item has not been taken and handed back, unless the
/// receiver is at the very point of waking it. A receiver that is suspended
/// and has not been woken is registered, and no item is on offer, unless the
/// sender is at the very point of waking it.
pub proof fn no_lost_wakeup(steps: Seq<Step>)
    requires
        possible(steps),
        !run(steps).leaked,
    ensures
        run(steps).sender_waiting && !run(steps).sender_notified ==> {
            &&& run(steps).sender_registered
            &&& run(steps).receiver_alive
            &&& run(steps).slot == run(steps).issued && run(steps).cell is None ==> run(
                steps,
            ).recv_at == RecvAt::Wake
        },
        run(steps).receiver_waiting && !run(steps).receiver_notified ==> {
            &&& run(steps).receiver_registered
            &&& run(steps).sender_alive
            &&& run(steps).slot != EMPTY && run(steps).cell is Some ==> run(steps).send_at
                == SendAt::Wake
        },
{
    every_run_is_safe(steps);
}

/// Unless a send operation was leaked, the wake that ends a take reaches a
/// suspended sender, and the wake that ends a publication reaches a
/// suspended receiver.
pub proof fn wakes_arrive(steps: Seq<Step>)
    requires
        possible(steps),
        !run(steps).leaked,
    ensures
        run(steps).enabled(Step::RecvWake) && run(steps).sender_waiting ==> run(steps).after(
            Step::RecvWake,
        ).sender_notified,
        run(steps).enabled(Step::SendWake) && run(steps).receiver_waiting ==> run(steps).after(
            Step::SendWake,
        ).receiver_notified,
{
    every_run_is_safe(steps);
}

/// The storage has one owner at a time. Unless a send operation was leaked:
/// the two sides are never inside the storage together, so that neither
/// ever finds it busy; while the receiver has it on loan the slot is empty
/// and the operation of the sender waits; and whenever no operation is under
/// way, be it after a success, a failure or a withdrawal, the storage is
/// empty, nothing is on offer and nothing is on loan.
pub proof fn storage_has_one_owner(steps: Seq<Step>)
    requires
        possible(steps),
        !run(steps).leaked,
    ensures
        !(run(steps).sender_in_storage() && run(steps).receiver_in_storage()),
        run(steps).on_loan() ==> {
            &&& run(steps).slot == EMPTY
            &&& run(steps).borrowed == run(steps).issued
            &&& run(steps).op == Some(Phase::Waiting)
            &&& !run(steps).sender_in_storage()
        },
        run(steps).cell is Some ==> run(steps).cell == Some(run(steps).issued) && run(steps).op
            == Some(Phase::Waiting),
        run(steps).op is None ==> {
            &&& run(steps).cell is None
            &&& !run(steps).on_loan()
            &&& run(steps).receiver_alive ==> run(steps).slot == EMPTY
        },
{
    every_run_is_safe(steps);
}

/// Once the receiver is gone, the storage is the sender's alone: neither a
/// poll nor a drop of a send finds it busy, leaks or not.
pub proof fn storage_is_free_without_receiver(steps: Seq<Step>)
    requires
        possible(steps),
        !run(steps).receiver_alive,
    ensures
        !run(steps).receiver_in_storage(),
        !run(steps).enabled(Step::SendPoll { busy: true }),
        !run(steps).enabled(Step::EndSend { busy: true }),
{
    every_run_is_safe(steps);
}

/// A withdrawal leaves nothing behind. Unless a send operation was leaked:
/// when a send that waits is dropped, the last step of its withdrawal finds
/// the slot empty and the receiver outside the storage, and it leaves the
/// storage empty, no operation under way and the sender's task free to go
/// on, be it to the next send or to the drop of the sender.
pub proof fn withdrawal_leaves_nothing(steps: Seq<Step>)
    requires
        possible(steps),
        !run(steps).leaked,
        run(steps).send_at == SendAt::CancelEmpty,
    ensures
        !run(steps).receiver_in_storage(),
        run(steps).receiver_alive ==> run(steps).slot == EMPTY,
        !run(steps).on_loan(),
        run(steps).after(Step::CancelEmpty { busy: false }).cell is None,
        run(steps).after(Step::CancelEmpty { busy: false }).op is None,
        !run(steps).after(Step::CancelEmpty { busy: false }).sender_waiting,
        run(steps).after(Step::CancelEmpty { busy: false }).send_at == SendAt::Parked,
{
    every_run_is_safe(steps);
    let before = run(steps);
    assert(before.places_sound());
    assert(before.loan_sound());
    assert(before.op == Some(Phase::Waiting));
    assert(!before.sender_waiting);
}

/// The branches that the protocol treats as faults are never taken, leaks
/// or not: a reclaim never finds a foreign ticket, and a restore never finds
/// the ticket that it is about to put back. An empty slot under a reclaim
/// means that the receiver is in the middle of a take, with the ticket of
/// this very operation.
pub proof fn faults_never_happen(steps: Seq<Step>, spurious: bool)
    requires
        possible(steps),
    ensures
        run(steps).send_at == SendAt::Reclaim || run(steps).send_at == SendAt::CancelReclaim ==> {
            let observed = run(steps).exchange(run(steps).issued, EMPTY, spurious).0;
            &&& reclaim_step(observed, run(steps).issued) != ReclaimStep::Foreign
            &&& reclaim_step(observed, run(steps).issued) == ReclaimStep::OnLoan ==> run(
                steps,
            ).on_loan() && run(steps).borrowed == run(steps).issued
        },
        run(steps).recv_at == RecvAt::Restore ==> restore_step(
            run(steps).exchange(EMPTY, run(steps).borrowed, false).0,
            run(steps).borrowed,
            run(steps).extracted is Some,
        ) != RestoreStep::Duplicate,
{
    every_run_is_safe(steps);
    let world = run(steps);
    assert(world.places_sound());
    assert(world.slot_sound());
}

/// A restore fails only after a leak. Unless a send operation was leaked, it
/// always finds the slot as the take left it, so that the receiver never
/// takes again and never keeps an item without waking the sender.
pub proof fn restore_fails_only_after_leak(steps: Seq<Step>)
    requires
        possible(steps),
        !run(steps).leaked,
        run(steps).recv_at == RecvAt::Restore,
    ensures
        restore_step(
            run(steps).exchange(EMPTY, run(steps).borrowed, false).0,
            run(steps).borrowed,
            run(steps).extracted is Some,
        ) == RestoreStep::Restored,
{
    every_run_is_safe(steps);
}

} // verus!
