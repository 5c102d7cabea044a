use vstd::prelude::*;
use embassy_sync::blocking_mutex::raw::CriticalSectionRawMutex;
use embassy_sync::channel::Channel;

verus! {

/// The queue between the listening sockets and the repeating socket: an
/// `embassy_sync` channel of at most `QUEUE_DEPTH` (8) messages of at most
/// `FRAME_CAPACITY` (256) bytes, guarded by a critical section. Verus sees
/// nothing inside it; the network tasks wait on `channel` for messages.
#[verifier::external_body]
pub struct RelayQueue {
    pub channel: Channel<CriticalSectionRawMutex, heapless::Vec<u8, 256>, 8>,
}

/// What became of a message offered to the relay queue.
#[derive(Clone, Copy, Debug, PartialEq, Eq, Structural)]
pub enum SendOutcome {
    /// The message now waits in the queue.
    Queued,
    /// The queue was full and the message was dropped.
    Dropped,
}

/// `Channel::try_send`: in the channel's source the message is pushed onto
/// the bounded queue when there is room, and otherwise handed back in
/// `TrySendError::Full`. Whether there is room depends on what other tasks
/// have sent and received meanwhile, so nothing is stated of the result.
#[verifier::external_body]
fn channel_try_send(queue: &RelayQueue, frame: heapless::Vec<u8, 256>) -> (queued: bool) {
    queue.channel.try_send(frame).is_ok()
}

/// Offers a message to the relay queue without waiting: it is queued when
/// there is room and dropped when the queue is full. Which of the two happens
/// depends on the other tasks, so either outcome can come back for any
/// message.
pub fn enqueue_frame(queue: &RelayQueue, frame: heapless::Vec<u8, 256>) -> (r: SendOutcome) {
    if channel_try_send(queue, frame) {
        SendOutcome::Queued
    } else {
        SendOutcome::Dropped
    }
}

} // verus!
