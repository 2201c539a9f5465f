use handoff::channel;
use handoff::error::resolve_disconnected;
use handoff::error::settle_disconnected;
use handoff::receiver::deliver;
use handoff::receiver::is_duplicate;
use handoff::receiver::settle_take;
use handoff::receiver::AfterTake;
use handoff::receiver::RETAKE_LIMIT;
use handoff::receiver::remaining_items;
use handoff::receiver::sequence_over;
use handoff::sender::empties_storage;
use handoff::sender::inspect;
use handoff::sender::withdraws;
use handoff::sender::AfterReclaim;
use handoff::shared::Inner;
use handoff::slot::advance;
use handoff::slot::classify_reclaim;
use handoff::slot::classify_restore;
use handoff::slot::ReclaimStep;
use handoff::slot::RestoreStep;
use handoff::slot::EMPTY;
use handoff::storage::Storage;
use handoff::Phase;
use handoff::SendError;
use std::sync::atomic::AtomicUsize;
use std::sync::atomic::Ordering;
use std::sync::Arc;
use std::task::Poll;
use std::task::Wake;
use std::task::Waker;

struct Wakes(AtomicUsize);

impl Wake for Wakes {
    fn wake(self: Arc<Self>) {
        self.0.fetch_add(1, Ordering::SeqCst);
    }
}

fn counting_waker() -> (Arc<Wakes>, Waker) {
    let wakes = Arc::new(Wakes(AtomicUsize::new(0)));
    (wakes.clone(), Waker::from(wakes))
}

fn count(wakes: &Arc<Wakes>) -> usize {
    wakes.0.load(Ordering::SeqCst)
}

#[test]
fn empty_slot_is_zero() {
    assert_eq!(EMPTY, 0);
}

#[test]
fn tickets_count_up_and_skip_the_empty_word() {
    assert_eq!(advance(0), 1);
    assert_eq!(advance(1), 2);
    assert_eq!(advance(41), 42);
    assert_eq!(advance(usize::MAX - 1), usize::MAX);
    assert_eq!(advance(usize::MAX), 1);
}

#[test]
fn reclaim_that_exchanged_has_reclaimed() {
    assert_eq!(classify_reclaim(Ok(7), 7), ReclaimStep::Reclaimed);
}

#[test]
fn reclaim_that_failed_on_its_own_ticket_was_spurious() {
    assert_eq!(classify_reclaim(Err(7), 7), ReclaimStep::Spurious);
}

#[test]
fn reclaim_of_an_empty_slot_finds_the_storage_on_loan() {
    assert_eq!(classify_reclaim(Err(EMPTY), 7), ReclaimStep::OnLoan);
}

#[test]
fn reclaim_that_finds_another_ticket_is_a_fault() {
    assert_eq!(classify_reclaim(Err(8), 7), ReclaimStep::Foreign);
}

#[test]
fn restore_that_exchanged_has_restored() {
    assert_eq!(classify_restore(Ok(EMPTY), 7, true), RestoreStep::Restored);
    assert_eq!(classify_restore(Ok(EMPTY), 7, false), RestoreStep::Restored);
}

#[test]
fn restore_that_finds_its_own_ticket_is_a_fault() {
    assert_eq!(classify_restore(Err(7), 7, true), RestoreStep::Duplicate);
    assert_eq!(classify_restore(Err(7), 7, false), RestoreStep::Duplicate);
}

#[test]
fn restore_that_finds_a_newer_offer_keeps_an_item_or_takes_again() {
    assert_eq!(classify_restore(Err(8), 7, true), RestoreStep::Keep);
    assert_eq!(classify_restore(Err(8), 7, false), RestoreStep::Retake);
}

#[test]
fn disconnected_send_fails_with_the_item_that_is_left() {
    assert!(matches!(resolve_disconnected(Some(5)), Err(SendError(5))));
    assert!(matches!(resolve_disconnected::<i32>(None), Ok(())));
}

#[test]
fn waiting_send_without_receiver_ends_on_what_the_storage_held() {
    assert!(matches!(settle_disconnected(Ok(Some(5))), Some(Err(SendError(5)))));
    assert!(matches!(settle_disconnected::<i32>(Ok(None)), Some(Ok(()))));
    assert!(matches!(settle_disconnected(Err(Some(5))), None));
    assert!(matches!(settle_disconnected::<i32>(Err(None)), None));
}

#[test]
fn look_into_the_reclaimed_storage_decides() {
    assert!(matches!(inspect::<i32>(Ok(None)), AfterReclaim::Succeed));
    assert!(matches!(inspect(Ok(Some(7))), AfterReclaim::Offer(7)));
    assert!(matches!(inspect::<i32>(Err(None)), AfterReclaim::Republish));
    assert!(matches!(inspect(Err(Some(7))), AfterReclaim::Republish));
}

#[test]
fn only_a_waiting_send_withdraws() {
    assert!(withdraws(Phase::Waiting));
    assert!(!withdraws(Phase::Idle));
    assert!(!withdraws(Phase::Done));
}

#[test]
fn withdrawal_empties_only_a_storage_that_is_the_senders() {
    assert!(empties_storage(None));
    assert!(empties_storage(Some(ReclaimStep::Reclaimed)));
    assert!(!empties_storage(Some(ReclaimStep::Foreign)));
    assert!(!empties_storage(Some(ReclaimStep::OnLoan)));
    assert!(!empties_storage(Some(ReclaimStep::Spurious)));
}

#[test]
fn withdrawal_without_receiver_empties_the_storage() {
    let (mut sender, receiver) = channel();
    let (_, waker) = counting_waker();
    let witness = Arc::new(());
    let mut op = sender.send(witness.clone());
    assert!(matches!(op.poll(&waker), Poll::Pending));
    drop(receiver);
    assert_eq!(Arc::strong_count(&witness), 2);
    drop(op);
    // The item went with the operation, not with the sender.
    assert_eq!(Arc::strong_count(&witness), 1);
    drop(sender);
}

#[test]
fn withdrawal_on_a_connected_channel_empties_the_storage() {
    let (mut sender, mut receiver) = channel();
    let (_, waker) = counting_waker();
    let witness = Arc::new(());
    let mut op = sender.send(witness.clone());
    assert!(matches!(op.poll(&waker), Poll::Pending));
    assert_eq!(Arc::strong_count(&witness), 2);
    drop(op);
    assert_eq!(Arc::strong_count(&witness), 1);
    assert!(matches!(receiver.poll_next(&waker), Poll::Pending));
}

#[test]
fn end_of_a_take_decides() {
    let delivered = settle_take(Some(3), Some(RestoreStep::Restored), 5);
    assert!(matches!(delivered, AfterTake::Return(Poll::Ready(Some(3)))));
    let kept = settle_take(Some(3), Some(RestoreStep::Keep), 0);
    assert!(matches!(kept, AfterTake::Return(Poll::Ready(Some(3)))));
    let nothing = settle_take::<i32>(None, Some(RestoreStep::Restored), 5);
    assert!(matches!(nothing, AfterTake::Return(Poll::Pending)));
    let vacant = settle_take::<i32>(None, None, 5);
    assert!(matches!(vacant, AfterTake::Return(Poll::Pending)));
    let again = settle_take::<i32>(None, Some(RestoreStep::Retake), RETAKE_LIMIT);
    assert!(matches!(again, AfterTake::TakeAgain));
    let once_more = settle_take::<i32>(None, Some(RestoreStep::Retake), 1);
    assert!(matches!(once_more, AfterTake::TakeAgain));
    let enough = settle_take::<i32>(None, Some(RestoreStep::Retake), 0);
    assert!(matches!(enough, AfterTake::GiveWay));
    let fault = settle_take(Some(3), Some(RestoreStep::Duplicate), 5);
    assert!(matches!(fault, AfterTake::Return(Poll::Ready(Some(3)))));
}

#[test]
fn only_a_duplicate_is_a_fault_of_a_take() {
    assert!(is_duplicate(Some(RestoreStep::Duplicate)));
    assert!(!is_duplicate(Some(RestoreStep::Restored)));
    assert!(!is_duplicate(Some(RestoreStep::Retake)));
    assert!(!is_duplicate(Some(RestoreStep::Keep)));
    assert!(!is_duplicate(None));
}

#[test]
fn reclaim_gives_up_only_when_patience_is_spent() {
    let inner = Inner::<i32>::new(Storage::new());
    // The slot is empty and stays so: every attempt finds it on loan.
    assert_eq!(inner.reclaim_sent_item_pointer(3, 0), ReclaimStep::OnLoan);
    assert_eq!(inner.reclaim_sent_item_pointer(3, 1_000), ReclaimStep::OnLoan);
    inner.publish(3);
    assert_eq!(inner.reclaim_sent_item_pointer(3, 1_000), ReclaimStep::Reclaimed);
}

#[test]
fn no_fault_in_a_rendezvous() {
    let (mut sender, mut receiver) = channel();
    let (_, waker) = counting_waker();
    let mut op = sender.send(1);
    assert!(!op.has_faulted());
    assert!(matches!(op.poll(&waker), Poll::Pending));
    assert_eq!(receiver.poll_next(&waker), Poll::Ready(Some(1)));
    assert!(matches!(op.poll(&waker), Poll::Ready(Ok(()))));
    assert!(!op.has_faulted());
    assert!(!receiver.has_faulted());
}

#[test]
fn first_poll_on_a_connected_channel_suspends() {
    let (mut sender, receiver) = channel();
    let (wakes, waker) = counting_waker();
    let mut op = sender.send(1);
    assert!(matches!(op.poll(&waker), Poll::Pending));
    assert_eq!(op.current_phase(), Phase::Waiting);
    assert_eq!(count(&wakes), 0);
    drop(op);
    drop(receiver);
}

#[test]
fn send_error_gives_the_item_back() {
    let error = SendError(String::from("parcel"));
    assert_eq!(error.message(), "tried to send on a disconnected channel");
    assert_eq!(error.describe(), "SendError(..)");
    assert_eq!(error.into_inner(), "parcel");
}

#[test]
fn send_error_of_a_copy_type_is_copy() {
    let error = SendError(3u8);
    let copy = error;
    assert_eq!(error.0, copy.0);
    assert_eq!(error.clone().into_inner(), 3);
}

#[test]
fn take_delivers_an_item_and_suspends_without_one() {
    assert_eq!(deliver(Some(9)), Poll::Ready(Some(9)));
    assert_eq!(deliver::<i32>(None), Poll::Pending);
}

#[test]
fn bounds_on_what_is_still_to_come() {
    assert_eq!(remaining_items(true), (0, None));
    assert_eq!(remaining_items(false), (0, Some(0)));
}

#[test]
fn sequence_is_over_once_ended_or_without_sender() {
    assert!(!sequence_over(false, true));
    assert!(sequence_over(false, false));
    assert!(sequence_over(true, true));
    assert!(sequence_over(true, false));
}

#[test]
fn shared_handle_reaches_the_same_cell() {
    let storage = Storage::new();
    let inner = Inner::new(storage.share());
    assert!(matches!(storage.exchange(Some(6)), Ok(None)));
    inner.publish(9);
    assert!(matches!(inner.take(), (Some(6), Some(RestoreStep::Restored))));
    assert!(matches!(storage.exchange(None), Ok(None)));
}

#[test]
fn storage_exchanges_its_content() {
    let storage = Storage::new();
    let other = storage.share();
    assert!(matches!(storage.exchange(Some(1)), Ok(None)));
    assert!(matches!(other.exchange(Some(2)), Ok(Some(1))));
    assert!(matches!(storage.exchange(None), Ok(Some(2))));
    assert!(matches!(other.exchange(None), Ok(None)));
}

#[test]
fn take_on_an_empty_slot_yields_nothing() {
    let inner = Inner::<i32>::new(Storage::new());
    assert!(matches!(inner.take(), (None, None)));
}

#[test]
fn publish_take_reclaim() {
    let storage = Storage::new();
    let inner = Inner::new(storage.share());
    assert!(matches!(storage.exchange(Some(70)), Ok(None)));
    inner.publish(3);
    // The take extracts the item and puts the ticket back.
    assert!(matches!(inner.take(), (Some(70), Some(RestoreStep::Restored))));
    // A second take finds the ticket, but the storage empty.
    assert!(matches!(inner.take(), (None, Some(RestoreStep::Restored))));
    // The sender gets its ticket back, once.
    assert_eq!(inner.reclaim_sent_item_pointer(3, 0), ReclaimStep::Reclaimed);
    assert_eq!(inner.reclaim_sent_item_pointer(3, 4), ReclaimStep::OnLoan);
    assert!(matches!(inner.take(), (None, None)));
}

#[test]
fn reclaim_reports_a_foreign_ticket() {
    let inner = Inner::<i32>::new(Storage::new());
    inner.publish(4);
    assert_eq!(inner.reclaim_sent_item_pointer(3, 5), ReclaimStep::Foreign);
    assert_eq!(inner.reclaim_sent_item_pointer(4, 5), ReclaimStep::Reclaimed);
}

#[test]
fn publishing_twice_is_harmless() {
    let storage = Storage::new();
    let inner = Inner::new(storage.share());
    assert!(matches!(storage.exchange(Some('x')), Ok(None)));
    inner.publish(1);
    inner.publish(1);
    assert!(matches!(inner.take(), (Some('x'), Some(RestoreStep::Restored))));
    assert_eq!(inner.reclaim_sent_item_pointer(1, 0), ReclaimStep::Reclaimed);
}

#[test]
fn rendezvous_step_by_step() {
    let (mut sender, mut receiver) = channel();
    let (sender_wakes, sender_waker) = counting_waker();
    let (receiver_wakes, receiver_waker) = counting_waker();

    // Nothing on offer: the receiver suspends.
    assert_eq!(receiver.poll_next(&receiver_waker), Poll::Pending);

    let mut op = sender.send(11);
    assert_eq!(op.current_phase(), Phase::Idle);
    // The first poll publishes, wakes the receiver and suspends.
    assert!(matches!(op.poll(&sender_waker), Poll::Pending));
    assert_eq!(op.current_phase(), Phase::Waiting);
    assert_eq!(count(&receiver_wakes), 1);
    assert_eq!(count(&sender_wakes), 0);

    // A poll before the take changes nothing.
    assert!(matches!(op.poll(&sender_waker), Poll::Pending));
    assert_eq!(op.current_phase(), Phase::Waiting);

    // The take delivers the item and wakes the sender.
    assert_eq!(receiver.poll_next(&receiver_waker), Poll::Ready(Some(11)));
    assert_eq!(count(&sender_wakes), 1);

    // The send ends in success, and the item is not delivered again.
    assert!(matches!(op.poll(&sender_waker), Poll::Ready(Ok(()))));
    assert_eq!(op.current_phase(), Phase::Done);
    drop(op);
    assert_eq!(receiver.poll_next(&receiver_waker), Poll::Pending);
}

#[test]
fn items_arrive_in_the_order_of_the_sends() {
    let (mut sender, mut receiver) = channel();
    let (_, waker) = counting_waker();
    let mut got = Vec::new();
    for item in ["a", "b", "c", "d", "e"] {
        let mut op = sender.send(item);
        assert!(matches!(op.poll(&waker), Poll::Pending));
        match receiver.poll_next(&waker) {
            Poll::Ready(Some(item)) => got.push(item),
            _ => panic!("an item was on offer"),
        }
        assert!(matches!(op.poll(&waker), Poll::Ready(Ok(()))));
    }
    assert_eq!(got, ["a", "b", "c", "d", "e"]);
}

#[test]
fn dropping_the_receiver_wakes_and_fails_the_send() {
    let (mut sender, receiver) = channel();
    let (wakes, waker) = counting_waker();
    let mut op = sender.send(String::from("undelivered"));
    assert!(matches!(op.poll(&waker), Poll::Pending));
    drop(receiver);
    assert_eq!(count(&wakes), 1);
    match op.poll(&waker) {
        Poll::Ready(Err(error)) => assert_eq!(error.into_inner(), "undelivered"),
        _ => panic!("the send did not fail"),
    }
    assert_eq!(op.current_phase(), Phase::Done);
}

#[test]
fn send_that_was_taken_succeeds_though_the_receiver_is_gone() {
    let (mut sender, mut receiver) = channel();
    let (_, waker) = counting_waker();
    let mut op = sender.send(5);
    assert!(matches!(op.poll(&waker), Poll::Pending));
    assert_eq!(receiver.poll_next(&waker), Poll::Ready(Some(5)));
    drop(receiver);
    assert!(matches!(op.poll(&waker), Poll::Ready(Ok(()))));
}

#[test]
fn first_poll_without_receiver_returns_the_item() {
    let (mut sender, receiver) = channel();
    let (wakes, waker) = counting_waker();
    drop(receiver);
    let mut op = sender.send(vec![1, 2, 3]);
    match op.poll(&waker) {
        Poll::Ready(Err(SendError(item))) => assert_eq!(item, vec![1, 2, 3]),
        _ => panic!("the send did not fail"),
    }
    assert_eq!(count(&wakes), 0);
}

#[test]
fn dropping_the_sender_wakes_and_ends_the_receiver() {
    let (sender, mut receiver) = channel::<u64>();
    let (wakes, waker) = counting_waker();
    assert_eq!(receiver.poll_next(&waker), Poll::Pending);
    assert_eq!(receiver.size_hint(), (0, None));
    assert!(!receiver.is_terminated());
    drop(sender);
    assert_eq!(count(&wakes), 1);
    assert!(receiver.is_terminated());
    assert_eq!(receiver.poll_next(&waker), Poll::Ready(None));
    assert_eq!(receiver.poll_next(&waker), Poll::Ready(None));
    assert_eq!(receiver.size_hint(), (0, Some(0)));
    let mut op = receiver.recv();
    assert_eq!(op.poll(&waker), Poll::Ready(None));
}

#[test]
fn withdrawn_send_is_never_delivered() {
    let (mut sender, mut receiver) = channel();
    let (wakes, waker) = counting_waker();
    let (_, receiver_waker) = counting_waker();
    let mut op = sender.send(1);
    assert!(matches!(op.poll(&waker), Poll::Pending));
    drop(op);
    // The offer is gone, and so is the registration.
    assert_eq!(receiver.poll_next(&receiver_waker), Poll::Pending);
    assert_eq!(count(&wakes), 0);
    // The channel goes on as before.
    let mut op = sender.send(2);
    assert!(matches!(op.poll(&waker), Poll::Pending));
    assert_eq!(receiver.poll_next(&receiver_waker), Poll::Ready(Some(2)));
    assert!(matches!(op.poll(&waker), Poll::Ready(Ok(()))));
    drop(op);
    drop(sender);
    assert_eq!(receiver.poll_next(&receiver_waker), Poll::Ready(None));
}

#[test]
fn send_that_was_never_polled_leaves_no_trace() {
    let (mut sender, mut receiver) = channel();
    let (_, waker) = counting_waker();
    drop(sender.send(1));
    assert_eq!(receiver.poll_next(&waker), Poll::Pending);
    let mut op = sender.send(2);
    assert!(matches!(op.poll(&waker), Poll::Pending));
    assert_eq!(receiver.poll_next(&waker), Poll::Ready(Some(2)));
}

#[test]
fn abandoned_receive_withdraws_its_registration() {
    let (mut sender, mut receiver) = channel();
    let (wakes, waker) = counting_waker();
    let (_, sender_waker) = counting_waker();
    {
        let mut op = receiver.recv();
        assert_eq!(op.poll(&waker), Poll::Pending);
    }
    let mut send = sender.send(8);
    assert!(matches!(send.poll(&sender_waker), Poll::Pending));
    assert_eq!(count(&wakes), 0);
    let mut op = receiver.recv();
    assert_eq!(op.poll(&waker), Poll::Ready(Some(8)));
}

#[test]
fn leaked_send_does_not_stop_the_channel() {
    let (mut sender, mut receiver) = channel();
    let (_, waker) = counting_waker();
    let mut leaked = sender.send(1);
    assert!(matches!(leaked.poll(&waker), Poll::Pending));
    std::mem::forget(leaked);
    let mut op = sender.send(2);
    assert!(matches!(op.poll(&waker), Poll::Pending));
    assert_eq!(receiver.poll_next(&waker), Poll::Ready(Some(2)));
    assert!(matches!(op.poll(&waker), Poll::Ready(Ok(()))));
    drop(op);
    assert_eq!(receiver.poll_next(&waker), Poll::Pending);
}

#[test]
fn leaked_offer_can_still_be_taken() {
    let (mut sender, mut receiver) = channel();
    let (_, waker) = counting_waker();
    let mut leaked = sender.send(1);
    assert!(matches!(leaked.poll(&waker), Poll::Pending));
    std::mem::forget(leaked);
    assert_eq!(receiver.poll_next(&waker), Poll::Ready(Some(1)));
    let mut op = sender.send(2);
    assert!(matches!(op.poll(&waker), Poll::Pending));
    assert_eq!(receiver.poll_next(&waker), Poll::Ready(Some(2)));
    assert!(matches!(op.poll(&waker), Poll::Ready(Ok(()))));
}
