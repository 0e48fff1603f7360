use vstd::prelude::*;

use crate::worker::Message;

verus! {

/// Producer handle of the shared work queue
/// (`crossbeam_channel::Sender`, declared opaque).
#[verifier::external_type_specification]
#[verifier::external_body]
#[verifier::reject_recursive_types(T)]
pub struct ExSender<T>(crossbeam_channel::Sender<T>);

/// Consumer handle of the shared work queue
/// (`crossbeam_channel::Receiver`, declared opaque).
#[verifier::external_type_specification]
#[verifier::external_body]
#[verifier::reject_recursive_types(T)]
pub struct ExReceiver<T>(crossbeam_channel::Receiver<T>);

/// Relies on `crossbeam_channel::unbounded`: creates a first-in-first-out
/// channel of unbounded capacity; every sent message is delivered to exactly
/// one receiving call, in the order the messages were enqueued. Public so
/// that contracts can state that a pool's workers share one channel.
#[verifier::external_body]
pub fn message_channel() -> (crossbeam_channel::Sender<Message>, crossbeam_channel::Receiver<
    Message,
>) {
    crossbeam_channel::unbounded()
}

/// Relies on `crossbeam_channel::Sender::send`: enqueues the message without
/// blocking (the channel is unbounded, so a full buffer cannot occur). The
/// call fails only when every consumer handle has been dropped; in that case
/// the message is discarded here, since no worker could ever run it and the
/// pool's submit operation is not allowed to fail observably. Public so
/// that contracts can state that a message was handed to the queue.
#[verifier::external_body]
pub fn send_message(sender: &crossbeam_channel::Sender<Message>, message: Message) {
    let _ = sender.send(message);
}

/// Relies on `crossbeam_channel::Receiver::recv`: blocks until a message is
/// available and hands it out (each message goes to exactly one receiving
/// call), or returns `None` once the channel is empty and every producer
/// handle has been dropped. Public so that contracts can state that a
/// worker's step acts on a message received here.
#[verifier::external_body]
pub fn recv_message(receiver: &crossbeam_channel::Receiver<Message>) -> (m: Option<
    Message,
>) {
    match receiver.recv() {
        Ok(message) => Some(message),
        Err(_) => None,
    }
}

/// Relies on `crossbeam_channel::Receiver::clone`: yields another consumer
/// handle on the same channel; every message is still delivered to exactly
/// one consumer across all handles. Public so that contracts can state
/// that each worker's consumer handle came from the pool's one channel.
#[verifier::external_body]
pub fn clone_receiver(
    receiver: &crossbeam_channel::Receiver<Message>,
) -> crossbeam_channel::Receiver<Message> {
    receiver.clone()
}

} // verus!
