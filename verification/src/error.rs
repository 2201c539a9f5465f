//! The one recoverable failure of the channel: a send that found the
//! receiver gone before the item was taken.

use vstd::prelude::*;

verus! {

/// The item that could not be delivered because the channel is disconnected.
#[derive(Clone, Copy)]
pub struct SendError<T>(pub T);

/// How a send ends once the receiver is gone, given what the sender's storage
/// still holds: an item that is still there comes back as the error, an
/// empty storage means the item had been taken.
pub open spec fn disconnected_outcome<T>(stored: Option<T>) -> Result<(), SendError<T>> {
    match stored {
        Some(item) => Err(SendError(item)),
        None => Ok(()),
    }
}

impl<T> SendError<T> {
    /// The item that was not delivered.
    pub open spec fn item(self) -> T {
        self.0
    }

    /// Gives the undelivered item back.
    pub fn into_inner(self) -> (item: T)
        ensures
            item == self.item(),
    {
        self.0
    }

    /// What happened, in words. The text does not depend on the item.
    pub fn message(&self) -> (text: String)
        ensures
            text@ == "tried to send on a disconnected channel"@,
    {
        "tried to send on a disconnected channel".to_string()
    }

    /// A rendering for diagnostics that shows no part of the item.
    pub fn describe(&self) -> (text: String)
        ensures
            text@ == "SendError(..)"@,
    {
        "SendError(..)".to_string()
    }
}

/// How a send that waits ends once the receiver is gone, given what the
/// look into the sender's storage came to: the content decides, and a
/// storage that could not be looked into decides nothing yet.
pub open spec fn after_disconnect<T>(stored: Result<Option<T>, Option<T>>) -> Option<
    Result<(), SendError<T>>,
> {
    match stored {
        Ok(content) => Some(disconnected_outcome(content)),
        Err(_) => None,
    }
}

/// Resolves a send that waits on a disconnected channel from what the look
/// into the sender's storage came to, or not yet.
pub fn settle_disconnected<T>(stored: Result<Option<T>, Option<T>>) -> (end: Option<
    Result<(), SendError<T>>,
>)
    ensures
        end == after_disconnect(stored),
{
    match stored {
        Ok(content) => Some(resolve_disconnected(content)),
        Err(_) => None,
    }
}

/// Resolves a send on a disconnected channel from the content of the
/// sender's storage.
pub fn resolve_disconnected<T>(stored: Option<T>) -> (outcome: Result<(), SendError<T>>)
    ensures
        outcome == disconnected_outcome(stored),
        outcome is Ok <==> stored is None,
{
    match stored {
        Some(item) => Err(SendError(item)),
        None => Ok(()),
    }
}

} // verus!
