use vstd::prelude::*;

verus! {

/// Where the repeating session stands.
#[derive(Clone, Copy, Debug, PartialEq, Eq, Structural)]
pub enum RepeatState {
    /// A fresh socket waits for a peer to connect.
    Accepting,
    /// A peer is connected and the session waits for the next queued message.
    Receiving,
    /// A message taken from the queue is being written to the peer.
    Writing,
}

/// What the outside world reports back to the repeating session.
#[derive(Clone, Copy, Debug, PartialEq, Eq, Structural)]
pub enum RepeatEvent {
    /// A peer connected.
    Accepted,
    /// Accepting a peer failed.
    AcceptFailed,
    /// A message was taken from the relay queue.
    Received,
    /// The whole message was written to the peer.
    Written,
    /// Writing the message failed.
    WriteFailed,
}

/// What the repeating session asks the outside world to do next.
#[derive(Clone, Copy, Debug, PartialEq, Eq, Structural)]
pub enum RepeatAction {
    /// Open a fresh socket with the inactivity timeout and accept a peer on
    /// the relay port.
    Accept,
    /// Wait for the next message of the relay queue.
    Receive,
    /// Write all of the message just received to the peer.
    Write,
}

/// The action that a session in a given state waits on.
pub open spec fn repeat_pending(state: RepeatState) -> RepeatAction {
    match state {
        RepeatState::Accepting => RepeatAction::Accept,
        RepeatState::Receiving => RepeatAction::Receive,
        RepeatState::Writing => RepeatAction::Write,
    }
}

/// Whether an event is one that the pending action of a state can report.
pub open spec fn repeat_expects(state: RepeatState, event: RepeatEvent) -> bool {
    match state {
        RepeatState::Accepting => event is Accepted || event is AcceptFailed,
        RepeatState::Receiving => event is Received,
        RepeatState::Writing => event is Written || event is WriteFailed,
    }
}

/// The state that an expected event leads to. A failed accept retries the
/// accept; a connected peer is sent the queued messages one at a time; a
/// failed write drops the peer (and the message) and accepts a new one.
pub open spec fn repeat_next(state: RepeatState, event: RepeatEvent) -> RepeatState {
    match event {
        RepeatEvent::Accepted => RepeatState::Receiving,
        RepeatEvent::AcceptFailed => RepeatState::Accepting,
        RepeatEvent::Received => RepeatState::Writing,
        RepeatEvent::Written => RepeatState::Receiving,
        RepeatEvent::WriteFailed => RepeatState::Accepting,
    }
}

impl RepeatState {
    /// The action this state waits on.
    pub fn pending_action(&self) -> (action: RepeatAction)
        ensures
            action == repeat_pending(*self),
            *self == RepeatState::Accepting ==> action == RepeatAction::Accept,
            *self == RepeatState::Receiving ==> action == RepeatAction::Receive,
            *self == RepeatState::Writing ==> action == RepeatAction::Write,
    {
        match *self {
            RepeatState::Accepting => RepeatAction::Accept,
            RepeatState::Receiving => RepeatAction::Receive,
            RepeatState::Writing => RepeatAction::Write,
        }
    }
}

/// The repeating session starts by accepting a peer.
pub fn repeat_start() -> (r: (RepeatState, RepeatAction))
    ensures
        r.0 == RepeatState::Accepting,
        r.1 == RepeatAction::Accept,
{
    (RepeatState::Accepting, RepeatAction::Accept)
}

/// The state after an event: the one `repeat_next` gives for an expected
/// event; an event that the pending action cannot have reported is ignored.
pub open spec fn repeat_after(state: RepeatState, event: RepeatEvent) -> RepeatState {
    if repeat_expects(state, event) {
        repeat_next(state, event)
    } else {
        state
    }
}

/// Whether a state waits on an action that can report the event.
pub fn repeat_expects_event(state: RepeatState, event: RepeatEvent) -> (r: bool)
    ensures
        r == repeat_expects(state, event),
        state == RepeatState::Accepting ==> (r <==> (event == RepeatEvent::Accepted || event
            == RepeatEvent::AcceptFailed)),
        state == RepeatState::Receiving ==> (r <==> event == RepeatEvent::Received),
        state == RepeatState::Writing ==> (r <==> (event == RepeatEvent::Written || event
            == RepeatEvent::WriteFailed)),
{
    match state {
        RepeatState::Accepting => matches!(event, RepeatEvent::Accepted | RepeatEvent::AcceptFailed),
        RepeatState::Receiving => matches!(event, RepeatEvent::Received),
        RepeatState::Writing => matches!(event, RepeatEvent::Written | RepeatEvent::WriteFailed),
    }
}

/// One step of the repeating session: from the current state and what the
/// last action reported, the next state and the action to perform.
pub fn repeat_step(state: RepeatState, event: RepeatEvent) -> (r: (RepeatState, RepeatAction))
    ensures
        r.0 == repeat_after(state, event),
        r.1 == repeat_pending(r.0),
        state == RepeatState::Accepting && event == RepeatEvent::Accepted ==> r == (
            RepeatState::Receiving,
            RepeatAction::Receive,
        ),
        state == RepeatState::Accepting && event == RepeatEvent::AcceptFailed ==> r == (
            RepeatState::Accepting,
            RepeatAction::Accept,
        ),
        state == RepeatState::Receiving && event == RepeatEvent::Received ==> r == (
            RepeatState::Writing,
            RepeatAction::Write,
        ),
        state == RepeatState::Writing && event == RepeatEvent::Written ==> r == (
            RepeatState::Receiving,
            RepeatAction::Receive,
        ),
        state == RepeatState::Writing && event == RepeatEvent::WriteFailed ==> r == (
            RepeatState::Accepting,
            RepeatAction::Accept,
        ),
{
    if !repeat_expects_event(state, event) {
        return (state, state.pending_action());
    }
    let next = match event {
        RepeatEvent::Accepted => RepeatState::Receiving,
        RepeatEvent::AcceptFailed => RepeatState::Accepting,
        RepeatEvent::Received => RepeatState::Writing,
        RepeatEvent::Written => RepeatState::Receiving,
        RepeatEvent::WriteFailed => RepeatState::Accepting,
    };
    (next, next.pending_action())
}

/// The repeating session never gets stuck: every state waits on an action
/// that some expected event answers.
pub proof fn repeat_always_has_next_event(state: RepeatState)
    ensures
        exists|event: RepeatEvent| #[trigger] repeat_expects(state, event),
{
    match state {
        RepeatState::Accepting => {
            assert(repeat_expects(state, RepeatEvent::AcceptFailed));
        },
        RepeatState::Receiving => {
            assert(repeat_expects(state, RepeatEvent::Received));
        },
        RepeatState::Writing => {
            assert(repeat_expects(state, RepeatEvent::WriteFailed));
        },
    }
}

/// Failures never stop the repeating session: a failed accept and a failed
/// write both lead back to accepting a new peer.
pub proof fn repeat_failures_reconnect(state: RepeatState, event: RepeatEvent)
    requires
        (state == RepeatState::Accepting && event == RepeatEvent::AcceptFailed) || (state
            == RepeatState::Writing && event == RepeatEvent::WriteFailed),
    ensures
        repeat_after(state, event) == RepeatState::Accepting,
        repeat_pending(repeat_after(state, event)) == RepeatAction::Accept,
{
}

/// The repeating session expects every report that the action it waits on
/// can give: any outcome of an accept, a received message, any outcome of a
/// write.
pub proof fn repeat_expects_what_it_asks_for()
    ensures
        repeat_expects(RepeatState::Accepting, RepeatEvent::Accepted),
        repeat_expects(RepeatState::Accepting, RepeatEvent::AcceptFailed),
        repeat_expects(RepeatState::Receiving, RepeatEvent::Received),
        repeat_expects(RepeatState::Writing, RepeatEvent::Written),
        repeat_expects(RepeatState::Writing, RepeatEvent::WriteFailed),
{
}

/// Every message taken from the queue is written next, and after a written
/// message the session waits on the queue again.
pub proof fn repeat_writes_what_it_receives()
    ensures
        repeat_after(RepeatState::Receiving, RepeatEvent::Received) == RepeatState::Writing,
        repeat_pending(repeat_after(RepeatState::Receiving, RepeatEvent::Received))
            == RepeatAction::Write,
        repeat_after(RepeatState::Writing, RepeatEvent::Written) == RepeatState::Receiving,
{
}

/// The queue is only drained while a peer is connected: the session waits on
/// the queue only right after a peer connected or a message was written.
pub proof fn repeat_receives_only_when_connected(state: RepeatState, event: RepeatEvent)
    requires
        repeat_expects(state, event),
        repeat_pending(repeat_next(state, event)) == RepeatAction::Receive,
    ensures
        event is Accepted || event is Written,
{
}

/// Whether each event of a sequence is one the session expects when it comes.
pub open spec fn repeat_run_valid(state: RepeatState, events: Seq<RepeatEvent>) -> bool
    decreases events.len(),
{
    events.len() == 0 || (repeat_expects(state, events[0]) && repeat_run_valid(
        repeat_next(state, events[0]),
        events.drop_first(),
    ))
}

/// How many messages a sequence of events took from the queue.
pub open spec fn repeat_received_count(events: Seq<RepeatEvent>) -> nat
    decreases events.len(),
{
    if events.len() == 0 {
        0
    } else {
        (if events[0] is Received { 1nat } else { 0nat }) + repeat_received_count(events.drop_first())
    }
}

/// How many write actions are issued along a sequence of events.
pub open spec fn repeat_write_count(state: RepeatState, events: Seq<RepeatEvent>) -> nat
    decreases events.len(),
{
    if events.len() == 0 {
        0
    } else {
        let next = repeat_next(state, events[0]);
        (if repeat_pending(next) == RepeatAction::Write { 1nat } else { 0nat })
            + repeat_write_count(next, events.drop_first())
    }
}

/// Over any run of the repeating session, every message taken from the queue
/// is written to the peer exactly once: there are as many write actions as
/// messages received.
pub proof fn repeat_writes_each_message_once(state: RepeatState, events: Seq<RepeatEvent>)
    requires
        repeat_run_valid(state, events),
    ensures
        repeat_write_count(state, events) == repeat_received_count(events),
    decreases events.len(),
{
    if events.len() > 0 {
        repeat_writes_each_message_once(repeat_next(state, events[0]), events.drop_first());
    }
}

/// A message is never taken from the queue while another still waits to be
/// written: only a session that is receiving expects a message.
pub proof fn repeat_never_receives_while_writing(state: RepeatState)
    requires
        repeat_expects(state, RepeatEvent::Received),
    ensures
        state == RepeatState::Receiving,
{
}

} // verus!
