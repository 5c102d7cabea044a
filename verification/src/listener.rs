use vstd::prelude::*;
use crate::queue::SendOutcome;

verus! {

/// Where a listening session stands.
#[derive(Clone, Copy, Debug, PartialEq, Eq, Structural)]
pub enum ListenState {
    /// A fresh socket waits for a peer to connect.
    Accepting,
    /// A peer is connected and the session reads from it.
    Reading,
    /// The last read gave `len` bytes, which are being handed to the queue.
    Forwarding { len: usize },
}

/// What the outside world reports back to a listening session.
#[derive(Clone, Copy, Debug, PartialEq, Eq, Structural)]
pub enum ListenEvent {
    /// A peer connected.
    Accepted,
    /// Accepting a peer failed.
    AcceptFailed,
    /// A read returned `len` bytes; zero bytes means the peer closed its side.
    ReadReturned { len: usize },
    /// Reading failed (a socket error or the inactivity timeout).
    ReadFailed,
    /// The chunk of the last read was offered to the queue, with this outcome.
    Forwarded { outcome: SendOutcome },
}

/// What a listening session asks the outside world to do next.
#[derive(Clone, Copy, Debug, PartialEq, Eq, Structural)]
pub enum ListenAction {
    /// Open a fresh socket with the inactivity timeout and accept a peer on
    /// the relay port.
    Accept,
    /// Read from the connected peer into the read buffer.
    Read,
    /// Hand the first `len` bytes of the read buffer to the relay queue.
    Forward { len: usize },
}

/// The action that a session in a given state waits on.
pub open spec fn listen_pending(state: ListenState) -> ListenAction {
    match state {
        ListenState::Accepting => ListenAction::Accept,
        ListenState::Reading => ListenAction::Read,
        ListenState::Forwarding { len } => ListenAction::Forward { len },
    }
}

/// Whether an event is one that the pending action of a state can report.
pub open spec fn listen_expects(state: ListenState, event: ListenEvent) -> bool {
    match state {
        ListenState::Accepting => event is Accepted || event is AcceptFailed,
        ListenState::Reading => event is ReadReturned || event is ReadFailed,
        ListenState::Forwarding { .. } => event is Forwarded,
    }
}

/// The state that an expected event leads to. A failed accept retries the
/// accept; an empty read (the peer closed) and a failed read drop the peer and
/// accept a new one; a non-empty read is forwarded whole; after forwarding,
/// whether the message was queued or dropped, the session reads again.
pub open spec fn listen_next(state: ListenState, event: ListenEvent) -> ListenState {
    match event {
        ListenEvent::Accepted => ListenState::Reading,
        ListenEvent::AcceptFailed => ListenState::Accepting,
        ListenEvent::ReadReturned { len } => if len == 0 {
            ListenState::Accepting
        } else {
            ListenState::Forwarding { len }
        },
        ListenEvent::ReadFailed => ListenState::Accepting,
        ListenEvent::Forwarded { .. } => ListenState::Reading,
    }
}

impl ListenState {
    /// The action this state waits on.
    pub fn pending_action(&self) -> (action: ListenAction)
        ensures
            action == listen_pending(*self),
            *self == ListenState::Accepting ==> action == ListenAction::Accept,
            *self == ListenState::Reading ==> action == ListenAction::Read,
            *self matches ListenState::Forwarding { len } ==> action == (ListenAction::Forward { len }),
    {
        match *self {
            ListenState::Accepting => ListenAction::Accept,
            ListenState::Reading => ListenAction::Read,
            ListenState::Forwarding { len } => ListenAction::Forward { len },
        }
    }
}

/// A listening session starts by accepting a peer.
pub fn listen_start() -> (r: (ListenState, ListenAction))
    ensures
        r.0 == ListenState::Accepting,
        r.1 == ListenAction::Accept,
{
    (ListenState::Accepting, ListenAction::Accept)
}

/// The state after an event: the one `listen_next` gives for an expected
/// event; an event that the pending action cannot have reported is ignored.
pub open spec fn listen_after(state: ListenState, event: ListenEvent) -> ListenState {
    if listen_expects(state, event) {
        listen_next(state, event)
    } else {
        state
    }
}

/// Whether a state waits on an action that can report the event.
pub fn listen_expects_event(state: ListenState, event: ListenEvent) -> (r: bool)
    ensures
        r == listen_expects(state, event),
        state == ListenState::Accepting ==> (r <==> (event == ListenEvent::Accepted || event
            == ListenEvent::AcceptFailed)),
        state == ListenState::Reading ==> (r <==> (event is ReadReturned || event
            == ListenEvent::ReadFailed)),
        state is Forwarding ==> (r <==> event is Forwarded),
{
    match state {
        ListenState::Accepting => matches!(event, ListenEvent::Accepted | ListenEvent::AcceptFailed),
        ListenState::Reading => matches!(event, ListenEvent::ReadReturned { .. } | ListenEvent::ReadFailed),
        ListenState::Forwarding { .. } => matches!(event, ListenEvent::Forwarded { .. }),
    }
}

/// One step of a listening session: from the current state and what the
/// last action reported, the next state and the action to perform.
pub fn listen_step(state: ListenState, event: ListenEvent) -> (r: (ListenState, ListenAction))
    ensures
        r.0 == listen_after(state, event),
        r.1 == listen_pending(r.0),
        state == ListenState::Accepting && event == ListenEvent::Accepted ==> r == (
            ListenState::Reading,
            ListenAction::Read,
        ),
        state == ListenState::Accepting && event == ListenEvent::AcceptFailed ==> r == (
            ListenState::Accepting,
            ListenAction::Accept,
        ),
        event matches ListenEvent::ReadReturned { len } ==> (state == ListenState::Reading && len
            > 0 ==> r == (ListenState::Forwarding { len }, ListenAction::Forward { len })),
        state == ListenState::Reading && (event == (ListenEvent::ReadReturned { len: 0 }) || event
            == ListenEvent::ReadFailed) ==> r == (ListenState::Accepting, ListenAction::Accept),
        state is Forwarding && event is Forwarded ==> r == (ListenState::Reading, ListenAction::Read),
{
    if !listen_expects_event(state, event) {
        return (state, state.pending_action());
    }
    let next = match event {
        ListenEvent::Accepted => ListenState::Reading,
        ListenEvent::AcceptFailed => ListenState::Accepting,
        ListenEvent::ReadReturned { len } => {
            if len == 0 {
                ListenState::Accepting
            } else {
                ListenState::Forwarding { len }
            }
        },
        ListenEvent::ReadFailed => ListenState::Accepting,
        ListenEvent::Forwarded { .. } => ListenState::Reading,
    };
    (next, next.pending_action())
}

/// A session never gets stuck: every state waits on an action, and every
/// expected event leads to a state that again waits on one it can report.
pub proof fn listen_always_has_next_event(state: ListenState)
    ensures
        exists|event: ListenEvent| #[trigger] listen_expects(state, event),
{
    match state {
        ListenState::Accepting => {
            assert(listen_expects(state, ListenEvent::Accepted));
        },
        ListenState::Reading => {
            assert(listen_expects(state, ListenEvent::ReadFailed));
        },
        ListenState::Forwarding { .. } => {
            let e = ListenEvent::Forwarded { outcome: SendOutcome::Queued };
            assert(listen_expects(state, e));
        },
    }
}

/// A session expects every report that the action it waits on can give: an
/// accepting session any outcome of the accept, a reading session a read of
/// any length or a failed read, a forwarding session either outcome of the
/// offer.
pub proof fn listen_expects_what_it_asks_for(len: usize, n: usize, outcome: SendOutcome)
    ensures
        listen_expects(ListenState::Accepting, ListenEvent::Accepted),
        listen_expects(ListenState::Accepting, ListenEvent::AcceptFailed),
        listen_expects(ListenState::Reading, ListenEvent::ReadReturned { len }),
        listen_expects(ListenState::Reading, ListenEvent::ReadFailed),
        listen_expects(ListenState::Forwarding { len: n }, ListenEvent::Forwarded { outcome }),
{
}

/// Failures and the end of a stream never stop a listening session: a failed
/// accept, a failed read and an empty read (the peer closed) all lead back to
/// accepting a new peer.
pub proof fn listen_failures_reconnect(state: ListenState, event: ListenEvent)
    requires
        (state == ListenState::Accepting && event == ListenEvent::AcceptFailed) || (state
            == ListenState::Reading && (event == ListenEvent::ReadFailed || event
            == (ListenEvent::ReadReturned { len: 0 }))),
    ensures
        listen_after(state, event) == ListenState::Accepting,
        listen_pending(listen_after(state, event)) == ListenAction::Accept,
{
}

/// A non-empty read is forwarded whole: the next action hands exactly the
/// bytes just read to the queue.
pub proof fn listen_forwards_each_read_whole(state: ListenState, len: usize)
    requires
        state == ListenState::Reading,
        len > 0,
    ensures
        listen_after(state, ListenEvent::ReadReturned { len }) == (ListenState::Forwarding { len }),
        listen_pending(listen_after(state, ListenEvent::ReadReturned { len }))
            == (ListenAction::Forward { len }),
{
}

/// A full queue never ends a connection: whether the message was queued or
/// dropped, the session goes on reading from the same peer.
pub proof fn listen_keeps_peer_after_forwarding(state: ListenState, outcome: SendOutcome)
    requires
        state is Forwarding,
    ensures
        listen_after(state, ListenEvent::Forwarded { outcome }) == ListenState::Reading,
        listen_pending(listen_after(state, ListenEvent::Forwarded { outcome })) == ListenAction::Read,
{
}

/// Whether each event of a sequence is one the session expects when it comes.
pub open spec fn listen_run_valid(state: ListenState, events: Seq<ListenEvent>) -> bool
    decreases events.len(),
{
    events.len() == 0 || (listen_expects(state, events[0]) && listen_run_valid(
        listen_next(state, events[0]),
        events.drop_first(),
    ))
}

/// The lengths of the non-empty reads of a sequence of events, in order.
pub open spec fn listen_read_lengths(events: Seq<ListenEvent>) -> Seq<usize>
    decreases events.len(),
{
    if events.len() == 0 {
        seq![]
    } else {
        let here: Seq<usize> = match events[0] {
            ListenEvent::ReadReturned { len } => if len > 0 {
                seq![len]
            } else {
                seq![]
            },
            _ => seq![],
        };
        here + listen_read_lengths(events.drop_first())
    }
}

/// The lengths that the forward actions issued along a sequence of events
/// hand to the queue, in order.
pub open spec fn listen_forward_lengths(state: ListenState, events: Seq<ListenEvent>) -> Seq<usize>
    decreases events.len(),
{
    if events.len() == 0 {
        seq![]
    } else {
        let next = listen_next(state, events[0]);
        let here: Seq<usize> = match listen_pending(next) {
            ListenAction::Forward { len } => seq![len],
            _ => seq![],
        };
        here + listen_forward_lengths(next, events.drop_first())
    }
}

/// Over any run of a listening session, the forward actions hand to the
/// queue exactly the non-empty reads, in the order they were read: each chunk
/// read from a peer is forwarded once, whole, and none is skipped, repeated or
/// reordered.
pub proof fn listen_forwards_each_read_in_order(state: ListenState, events: Seq<ListenEvent>)
    requires
        listen_run_valid(state, events),
    ensures
        listen_forward_lengths(state, events) == listen_read_lengths(events),
    decreases events.len(),
{
    if events.len() > 0 {
        listen_forwards_each_read_in_order(listen_next(state, events[0]), events.drop_first());
    }
}

} // verus!
