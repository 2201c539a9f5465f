//! An unbuffered, single-producer, single-consumer rendezvous channel.
//!
//! A send publishes a ticket in one atomic slot and suspends until the
//! receiver has taken the item; the receiver borrows the sender's storage for
//! the length of one take and hands it back. Neither side ever blocks.
//!
//! The decisions of that protocol are pure functions with exact contracts
//! (`slot`, `error`, and the ends of `receiver`). The handles that run it on
//! real atomics, wakers and a jointly owned state are built from them
//! (`shared`, `sender`, `receiver`, over `wake`, `joint` and `storage`);
//! what the other side does in the meantime is not theirs to promise, so
//! their contracts state what holds whatever it did. What the two sides
//! achieve together is the matter of `model`, which states the protocol as
//! a transition system over the same decisions, and of `laws`, which proves
//! what it guarantees under every interleaving: delivery in order and
//! exactly once, sends that end rightly, an end of the sequence that stays,
//! no lost wakeup, and a storage with one owner at a time.

pub mod error;
pub mod joint;
pub mod laws;
pub mod model;
pub mod receiver;
pub mod sender;
pub mod shared;
pub mod slot;
pub mod storage;
pub mod wake;

use crate::shared::Inner;
use crate::storage::Storage;
use twinsies::Joint;
use vstd::prelude::*;

pub use crate::error::SendError;
pub use crate::receiver::Receiver;
pub use crate::receiver::Recv;
pub use crate::sender::Phase;
pub use crate::sender::SendOp;
pub use crate::sender::Sender;

verus! {

/// Creates a channel: a sender and a receiver over one shared state with an
/// empty slot. The sender has begun no operation yet and the receiver has
/// neither seen the end of the sequence nor met a fault.
pub fn channel<T>() -> (ends: (Sender<T>, Receiver<T>))
    ensures
        ends.0.issued() == 0,
        !ends.1.ended(),
        !ends.1.faulted(),
{
    let storage = Storage::new();
    let (send_joint, recv_joint) = Joint::new(Inner::new(storage.share()));
    (Sender::new(send_joint, storage), Receiver::new(recv_joint))
}

} // verus!
