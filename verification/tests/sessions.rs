use demo_firmware::dhcp::{dhcp_wait_step, DhcpWaitAction};
use demo_firmware::listener::{listen_start, listen_step, ListenAction, ListenEvent, ListenState};
use demo_firmware::queue::SendOutcome;
use demo_firmware::repeater::{repeat_start, repeat_step, RepeatAction, RepeatEvent, RepeatState};

#[test]
fn listener_starts_by_accepting() {
    assert_eq!(listen_start(), (ListenState::Accepting, ListenAction::Accept));
}

#[test]
fn listener_accept_failure_retries_accept() {
    assert_eq!(
        listen_step(ListenState::Accepting, ListenEvent::AcceptFailed),
        (ListenState::Accepting, ListenAction::Accept)
    );
}

#[test]
fn listener_reads_after_accept() {
    assert_eq!(
        listen_step(ListenState::Accepting, ListenEvent::Accepted),
        (ListenState::Reading, ListenAction::Read)
    );
}

#[test]
fn listener_forwards_whole_read() {
    assert_eq!(
        listen_step(ListenState::Reading, ListenEvent::ReadReturned { len: 17 }),
        (ListenState::Forwarding { len: 17 }, ListenAction::Forward { len: 17 })
    );
}

#[test]
fn listener_eof_goes_back_to_accepting() {
    assert_eq!(
        listen_step(ListenState::Reading, ListenEvent::ReadReturned { len: 0 }),
        (ListenState::Accepting, ListenAction::Accept)
    );
}

#[test]
fn listener_read_error_goes_back_to_accepting() {
    assert_eq!(
        listen_step(ListenState::Reading, ListenEvent::ReadFailed),
        (ListenState::Accepting, ListenAction::Accept)
    );
}

#[test]
fn listener_keeps_reading_after_dropped_message() {
    for outcome in [SendOutcome::Queued, SendOutcome::Dropped] {
        assert_eq!(
            listen_step(ListenState::Forwarding { len: 5 }, ListenEvent::Forwarded { outcome }),
            (ListenState::Reading, ListenAction::Read)
        );
    }
}

#[test]
fn listener_full_session() {
    let (mut state, mut action) = listen_start();
    let events = [
        ListenEvent::AcceptFailed,
        ListenEvent::Accepted,
        ListenEvent::ReadReturned { len: 4 },
        ListenEvent::Forwarded { outcome: SendOutcome::Queued },
        ListenEvent::ReadReturned { len: 9 },
        ListenEvent::Forwarded { outcome: SendOutcome::Dropped },
        ListenEvent::ReadReturned { len: 0 },
    ];
    let mut forwarded = 0usize;
    for event in events {
        (state, action) = listen_step(state, event);
        if let ListenAction::Forward { len } = action {
            forwarded += len;
        }
    }
    assert_eq!(forwarded, 13);
    assert_eq!((state, action), (ListenState::Accepting, ListenAction::Accept));
}

#[test]
fn repeater_starts_by_accepting() {
    assert_eq!(repeat_start(), (RepeatState::Accepting, RepeatAction::Accept));
}

#[test]
fn repeater_writes_each_received_message() {
    assert_eq!(
        repeat_step(RepeatState::Accepting, RepeatEvent::Accepted),
        (RepeatState::Receiving, RepeatAction::Receive)
    );
    assert_eq!(
        repeat_step(RepeatState::Receiving, RepeatEvent::Received),
        (RepeatState::Writing, RepeatAction::Write)
    );
    assert_eq!(
        repeat_step(RepeatState::Writing, RepeatEvent::Written),
        (RepeatState::Receiving, RepeatAction::Receive)
    );
}

#[test]
fn repeater_failures_go_back_to_accepting() {
    assert_eq!(
        repeat_step(RepeatState::Accepting, RepeatEvent::AcceptFailed),
        (RepeatState::Accepting, RepeatAction::Accept)
    );
    assert_eq!(
        repeat_step(RepeatState::Writing, RepeatEvent::WriteFailed),
        (RepeatState::Accepting, RepeatAction::Accept)
    );
}

#[test]
fn repeater_pending_actions() {
    assert_eq!(RepeatState::Accepting.pending_action(), RepeatAction::Accept);
    assert_eq!(RepeatState::Receiving.pending_action(), RepeatAction::Receive);
    assert_eq!(RepeatState::Writing.pending_action(), RepeatAction::Write);
    assert_eq!(ListenState::Forwarding { len: 3 }.pending_action(), ListenAction::Forward { len: 3 });
}

#[test]
fn listener_ignores_event_it_did_not_ask_for() {
    assert_eq!(
        listen_step(ListenState::Accepting, ListenEvent::ReadReturned { len: 3 }),
        (ListenState::Accepting, ListenAction::Accept)
    );
    assert_eq!(
        listen_step(ListenState::Reading, ListenEvent::Accepted),
        (ListenState::Reading, ListenAction::Read)
    );
}

#[test]
fn repeater_ignores_event_it_did_not_ask_for() {
    assert_eq!(
        repeat_step(RepeatState::Writing, RepeatEvent::Received),
        (RepeatState::Writing, RepeatAction::Write)
    );
    assert_eq!(
        repeat_step(RepeatState::Accepting, RepeatEvent::Written),
        (RepeatState::Accepting, RepeatAction::Accept)
    );
}

#[test]
fn repeater_full_session_writes_each_message() {
    let (mut state, mut action) = repeat_start();
    let events = [
        RepeatEvent::Accepted,
        RepeatEvent::Received,
        RepeatEvent::Written,
        RepeatEvent::Received,
        RepeatEvent::WriteFailed,
        RepeatEvent::AcceptFailed,
        RepeatEvent::Accepted,
        RepeatEvent::Received,
        RepeatEvent::Written,
    ];
    let mut writes = 0;
    for event in events {
        (state, action) = repeat_step(state, event);
        if action == RepeatAction::Write {
            writes += 1;
        }
    }
    assert_eq!(writes, 3);
    assert_eq!((state, action), (RepeatState::Receiving, RepeatAction::Receive));
}

#[test]
fn dhcp_wait_finishes_only_when_configured() {
    assert_eq!(dhcp_wait_step(true), DhcpWaitAction::Finish);
    assert_eq!(dhcp_wait_step(false), DhcpWaitAction::Yield);
}

#[test]
fn listener_forwards_reads_in_order() {
    let (mut state, mut action) = listen_start();
    let events = [
        ListenEvent::Accepted,
        ListenEvent::ReadReturned { len: 3 },
        ListenEvent::Forwarded { outcome: SendOutcome::Queued },
        ListenEvent::ReadReturned { len: 7 },
        ListenEvent::Forwarded { outcome: SendOutcome::Dropped },
        ListenEvent::ReadReturned { len: 0 },
        ListenEvent::Accepted,
        ListenEvent::ReadReturned { len: 1 },
        ListenEvent::Forwarded { outcome: SendOutcome::Queued },
        ListenEvent::ReadFailed,
    ];
    let mut forwarded = Vec::new();
    for event in events {
        (state, action) = listen_step(state, event);
        if let ListenAction::Forward { len } = action {
            forwarded.push(len);
        }
    }
    assert_eq!(forwarded, vec![3, 7, 1]);
    assert_eq!((state, action), (ListenState::Accepting, ListenAction::Accept));
}
