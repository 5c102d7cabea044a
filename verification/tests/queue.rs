use demo_firmware::frame::frame_from_chunk;
use demo_firmware::queue::{enqueue_frame, RelayQueue, SendOutcome};
use embassy_sync::channel::Channel;

fn new_queue() -> RelayQueue {
    RelayQueue { channel: Channel::new() }
}

fn offer(queue: &RelayQueue, chunk: &[u8]) -> SendOutcome {
    enqueue_frame(queue, frame_from_chunk(chunk).unwrap())
}

#[test]
fn queued_message_is_unchanged() {
    let queue = new_queue();
    assert_eq!(offer(&queue, b"ping"), SendOutcome::Queued);
    let message = queue.channel.try_receive().unwrap();
    assert_eq!(message.as_slice(), b"ping");
}

#[test]
fn messages_come_out_in_order() {
    let queue = new_queue();
    for chunk in [&b"one"[..], &b"two"[..], &b"three"[..]] {
        assert_eq!(offer(&queue, chunk), SendOutcome::Queued);
    }
    assert_eq!(queue.channel.try_receive().unwrap().as_slice(), b"one");
    assert_eq!(queue.channel.try_receive().unwrap().as_slice(), b"two");
    assert_eq!(queue.channel.try_receive().unwrap().as_slice(), b"three");
    assert!(queue.channel.try_receive().is_err());
}

#[test]
fn ninth_message_is_dropped_when_queue_full() {
    let queue = new_queue();
    for i in 0..8u8 {
        let text = [b'0' + i];
        assert_eq!(offer(&queue, &text), SendOutcome::Queued);
    }
    assert_eq!(offer(&queue, b"late"), SendOutcome::Dropped);
    assert_eq!(queue.channel.len(), 8);
    assert_eq!(queue.channel.try_receive().unwrap().as_slice(), b"0");
    assert_eq!(offer(&queue, b"again"), SendOutcome::Queued);
}

#[test]
fn dropped_message_leaves_queue_unchanged() {
    let queue = new_queue();
    for _ in 0..8 {
        assert_eq!(offer(&queue, b"m"), SendOutcome::Queued);
    }
    assert_eq!(offer(&queue, b"x"), SendOutcome::Dropped);
    for _ in 0..8 {
        assert_eq!(queue.channel.try_receive().unwrap().as_slice(), b"m");
    }
    assert!(queue.channel.is_empty());
}
