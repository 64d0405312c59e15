//! The expiry-notification queue: an unbounded `crossbeam_channel` whose
//! sending and receiving halves are held together, so that what was sent is
//! exactly what is waiting to be received.
use vstd::prelude::*;
use crossbeam_channel::{unbounded, Receiver, Sender};

verus! {

/// Both halves of one unbounded channel of `(key, expiry)` notifications.
#[verifier::external_body]
pub struct ExpiryQueue {
    sender: Sender<(String, u128)>,
    receiver: Receiver<(String, u128)>,
}

/// The notifications waiting in the queue, oldest first.
pub uninterp spec fn queued(q: ExpiryQueue) -> Seq<(Seq<char>, u128)>;

/// Relies on `crossbeam_channel::unbounded`: a new channel holds no message.
#[verifier::external_body]
pub(crate) fn queue_new() -> (r: ExpiryQueue)
    ensures
        queued(r) == Seq::<(Seq<char>, u128)>::empty(),
{
    let (sender, receiver) = unbounded();
    ExpiryQueue { sender, receiver }
}

/// Relies on `Sender::send` of an unbounded channel: it fails only once every
/// receiver is gone, and this queue keeps its receiver, so the notification is
/// appended; `r` is whether the send reported success.
#[verifier::external_body]
pub(crate) fn queue_push(q: &mut ExpiryQueue, key: String, expiry: u128) -> (r: bool)
    ensures
        r,
        queued(*final(q)) == queued(*old(q)).push((key@, expiry)),
{
    q.sender.send((key, expiry)).is_ok()
}

/// Relies on `Receiver::try_iter`: takes, without waiting, every notification
/// that is queued, in the order they were sent.
#[verifier::external_body]
pub(crate) fn queue_drain(q: &mut ExpiryQueue) -> (r: Vec<(String, u128)>)
    ensures
        r@.len() == queued(*old(q)).len(),
        forall|i: int| 0 <= i < r@.len() ==> (#[trigger] r@[i]).0@ == queued(*old(q))[i].0
            && r@[i].1 == queued(*old(q))[i].1,
        queued(*final(q)) == Seq::<(Seq<char>, u128)>::empty(),
{
    q.receiver.try_iter().collect()
}

} // verus!
