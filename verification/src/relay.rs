//! The decision table of the duplex relay.
//!
//! The relay itself waits on three sources at once: the local endpoint, the
//! remote stream and the interrupt. Whoever drives it reports each thing that
//! happened as an event, and `step` answers with the next state and the one
//! action to perform. No byte is interpreted: a payload goes out as it came
//! in.

use vstd::prelude::*;

verus! {

/// Why a relay ended in failure.
#[derive(PartialEq, Eq, Structural, Debug, Clone, Copy)]
pub enum RelayError {
    /// The stream could not be opened. The credentials are spent: nothing is
    /// retried.
    ConnectFailed,
    /// An unrecoverable I/O error on either side ended the stream.
    StreamFailure,
}

/// Where a relay stands.
#[derive(PartialEq, Eq, Debug, Clone, Copy)]
pub enum RelayState {
    /// The stream is being opened.
    Connecting,
    /// Both directions are being pumped.
    Streaming,
    /// An interrupt was seen and the teardown is under way.
    Cancelling,
    /// Terminal: both pumps stopped and both ends closed, with the result of
    /// the session.
    Closed(Result<(), RelayError>),
}

/// Something that happened to a relay.
#[derive(PartialEq, Eq, Debug, Clone)]
pub enum RelayEvent {
    /// The stream is open.
    Connected,
    /// The stream could not be opened.
    ConnectFailed,
    /// The local endpoint delivered a chunk.
    LocalChunk(Vec<u8>),
    /// The local endpoint reached its end.
    LocalEof,
    /// The remote stream delivered a message.
    RemoteMessage(Vec<u8>),
    /// The remote stream was closed by the other side.
    RemoteClosed,
    /// A read or a write failed on either side.
    IoFailure,
    /// The interrupt was delivered.
    Interrupt,
    /// The teardown is complete: both pumps stopped and both ends closed.
    Stopped,
}

/// What the driver is to do next.
#[derive(PartialEq, Eq, Debug, Clone)]
pub enum RelayAction {
    /// Nothing: wait for the next event.
    Wait,
    /// Send the payload as one binary message on the remote stream.
    SendRemote(Vec<u8>),
    /// Write the payload to the local endpoint.
    WriteLocal(Vec<u8>),
    /// Stop both pumps, close the remote connection and the local endpoint.
    Shutdown,
}

/// The mathematical value of an event.
pub enum EventView {
    Connected,
    ConnectFailed,
    LocalChunk(Seq<u8>),
    LocalEof,
    RemoteMessage(Seq<u8>),
    RemoteClosed,
    IoFailure,
    Interrupt,
    Stopped,
}

/// The mathematical value of an action.
pub enum ActionView {
    Wait,
    SendRemote(Seq<u8>),
    WriteLocal(Seq<u8>),
    Shutdown,
}

impl View for RelayEvent {
    type V = EventView;

    open spec fn view(&self) -> EventView {
        match *self {
            RelayEvent::Connected => EventView::Connected,
            RelayEvent::ConnectFailed => EventView::ConnectFailed,
            RelayEvent::LocalChunk(chunk) => EventView::LocalChunk(chunk@),
            RelayEvent::LocalEof => EventView::LocalEof,
            RelayEvent::RemoteMessage(payload) => EventView::RemoteMessage(payload@),
            RelayEvent::RemoteClosed => EventView::RemoteClosed,
            RelayEvent::IoFailure => EventView::IoFailure,
            RelayEvent::Interrupt => EventView::Interrupt,
            RelayEvent::Stopped => EventView::Stopped,
        }
    }
}

impl View for RelayAction {
    type V = ActionView;

    open spec fn view(&self) -> ActionView {
        match *self {
            RelayAction::Wait => ActionView::Wait,
            RelayAction::SendRemote(payload) => ActionView::SendRemote(payload@),
            RelayAction::WriteLocal(payload) => ActionView::WriteLocal(payload@),
            RelayAction::Shutdown => ActionView::Shutdown,
        }
    }
}

/// The transition table: the state after `event` and the action it calls
/// for. An event that means nothing in a state is ignored.
pub open spec fn relay_step(state: RelayState, event: EventView) -> (RelayState, ActionView) {
    match state {
        RelayState::Connecting => match event {
            EventView::Connected => (RelayState::Streaming, ActionView::Wait),
            EventView::ConnectFailed => (
                RelayState::Closed(Err(RelayError::ConnectFailed)),
                ActionView::Shutdown,
            ),
            EventView::Interrupt => (RelayState::Cancelling, ActionView::Shutdown),
            _ => (RelayState::Connecting, ActionView::Wait),
        },
        RelayState::Streaming => match event {
            EventView::LocalChunk(chunk) => if chunk.len() == 0 {
                (RelayState::Streaming, ActionView::Wait)
            } else {
                (RelayState::Streaming, ActionView::SendRemote(chunk))
            },
            EventView::RemoteMessage(payload) => (
                RelayState::Streaming,
                ActionView::WriteLocal(payload),
            ),
            EventView::LocalEof => (RelayState::Closed(Ok(())), ActionView::Shutdown),
            EventView::RemoteClosed => (RelayState::Closed(Ok(())), ActionView::Shutdown),
            EventView::IoFailure => (
                RelayState::Closed(Err(RelayError::StreamFailure)),
                ActionView::Shutdown,
            ),
            EventView::Interrupt => (RelayState::Cancelling, ActionView::Shutdown),
            _ => (RelayState::Streaming, ActionView::Wait),
        },
        RelayState::Cancelling => match event {
            EventView::Stopped => (RelayState::Closed(Ok(())), ActionView::Wait),
            _ => (RelayState::Cancelling, ActionView::Wait),
        },
        RelayState::Closed(result) => (RelayState::Closed(result), ActionView::Wait),
    }
}

/// The state and the actions after a sequence of events, in order.
pub open spec fn relay_run(state: RelayState, events: Seq<EventView>) -> (
    RelayState,
    Seq<ActionView>,
)
    decreases events.len(),
{
    if events.len() == 0 {
        (state, Seq::empty())
    } else {
        let before = relay_run(state, events.drop_last());
        let last = relay_step(before.0, events.last());
        (last.0, before.1.push(last.1))
    }
}

/// The bytes that the local endpoint delivered, in order.
pub open spec fn local_input(events: Seq<EventView>) -> Seq<u8>
    decreases events.len(),
{
    if events.len() == 0 {
        Seq::empty()
    } else {
        local_input(events.drop_last()) + match events.last() {
            EventView::LocalChunk(chunk) => chunk,
            _ => Seq::empty(),
        }
    }
}

/// The bytes that the remote stream delivered, in order.
pub open spec fn remote_input(events: Seq<EventView>) -> Seq<u8>
    decreases events.len(),
{
    if events.len() == 0 {
        Seq::empty()
    } else {
        remote_input(events.drop_last()) + match events.last() {
            EventView::RemoteMessage(payload) => payload,
            _ => Seq::empty(),
        }
    }
}

/// The bytes sent on the remote stream, in order.
pub open spec fn remote_output(actions: Seq<ActionView>) -> Seq<u8>
    decreases actions.len(),
{
    if actions.len() == 0 {
        Seq::empty()
    } else {
        remote_output(actions.drop_last()) + match actions.last() {
            ActionView::SendRemote(payload) => payload,
            _ => Seq::empty(),
        }
    }
}

/// The bytes written to the local endpoint, in order.
pub open spec fn local_output(actions: Seq<ActionView>) -> Seq<u8>
    decreases actions.len(),
{
    if actions.len() == 0 {
        Seq::empty()
    } else {
        local_output(actions.drop_last()) + match actions.last() {
            ActionView::WriteLocal(payload) => payload,
            _ => Seq::empty(),
        }
    }
}

/// Whether every event is a chunk from the local endpoint or a message from
/// the remote stream.
pub open spec fn only_data(events: Seq<EventView>) -> bool {
    forall|i: int|
        0 <= i < events.len() ==> (#[trigger] events[i] is LocalChunk
            || events[i] is RemoteMessage)
}

/// Whether no action moves a byte.
pub open spec fn all_quiet(actions: Seq<ActionView>) -> bool {
    forall|i: int| 0 <= i < actions.len() ==> #[trigger] actions[i] == ActionView::Wait
}

impl RelayState {
    /// The result of the session, once the relay is closed.
    pub open spec fn outcome(self) -> Option<Result<(), RelayError>> {
        match self {
            RelayState::Closed(result) => Some(result),
            _ => None,
        }
    }

    /// Returns the result of the session if the relay is closed, and `None`
    /// while it runs.
    pub fn result(&self) -> (r: Option<Result<(), RelayError>>)
        ensures
            r == self.outcome(),
    {
        match self {
            RelayState::Closed(result) => Some(*result),
            _ => None,
        }
    }
}

/// Takes one step of the relay: the next state and the action to perform.
pub fn step(state: RelayState, event: RelayEvent) -> (r: (RelayState, RelayAction))
    ensures
        r.0 == relay_step(state, event@).0,
        r.1@ == relay_step(state, event@).1,
{
    match state {
        RelayState::Connecting => match event {
            RelayEvent::Connected => (RelayState::Streaming, RelayAction::Wait),
            RelayEvent::ConnectFailed => (
                RelayState::Closed(Err(RelayError::ConnectFailed)),
                RelayAction::Shutdown,
            ),
            RelayEvent::Interrupt => (RelayState::Cancelling, RelayAction::Shutdown),
            _ => (RelayState::Connecting, RelayAction::Wait),
        },
        RelayState::Streaming => match event {
            RelayEvent::LocalChunk(chunk) => if chunk.len() == 0 {
                (RelayState::Streaming, RelayAction::Wait)
            } else {
                (RelayState::Streaming, RelayAction::SendRemote(chunk))
            },
            RelayEvent::RemoteMessage(payload) => (
                RelayState::Streaming,
                RelayAction::WriteLocal(payload),
            ),
            RelayEvent::LocalEof => (RelayState::Closed(Ok(())), RelayAction::Shutdown),
            RelayEvent::RemoteClosed => (RelayState::Closed(Ok(())), RelayAction::Shutdown),
            RelayEvent::IoFailure => (
                RelayState::Closed(Err(RelayError::StreamFailure)),
                RelayAction::Shutdown,
            ),
            RelayEvent::Interrupt => (RelayState::Cancelling, RelayAction::Shutdown),
            _ => (RelayState::Streaming, RelayAction::Wait),
        },
        RelayState::Cancelling => match event {
            RelayEvent::Stopped => (RelayState::Closed(Ok(())), RelayAction::Wait),
            _ => (RelayState::Cancelling, RelayAction::Wait),
        },
        RelayState::Closed(result) => (RelayState::Closed(result), RelayAction::Wait),
    }
}

/// The values of a sequence of events.
pub open spec fn event_views(events: Seq<RelayEvent>) -> Seq<EventView> {
    Seq::new(events.len(), |i: int| events[i]@)
}

/// The values of a sequence of actions.
pub open spec fn action_views(actions: Seq<RelayAction>) -> Seq<ActionView> {
    Seq::new(actions.len(), |i: int| actions[i]@)
}

/// Steps a relay through recorded events, first to last, and returns the
/// state it ends in with the action of each step.
pub fn replay(state: RelayState, events: Vec<RelayEvent>) -> (r: (RelayState, Vec<RelayAction>))
    ensures
        r.0 == relay_run(state, event_views(events@)).0,
        action_views(r.1@) == relay_run(state, event_views(events@)).1,
{
    let ghost all = event_views(events@);
    let ghost mut done: Seq<EventView> = Seq::empty();
    let mut rest = events;
    let mut current = state;
    let mut actions: Vec<RelayAction> = Vec::new();
    assert(action_views(actions@) =~= relay_run(state, done).1);
    assert(done + event_views(rest@) =~= all);
    while rest.len() > 0
        invariant
            done + event_views(rest@) == all,
            current == relay_run(state, done).0,
            action_views(actions@) == relay_run(state, done).1,
        decreases rest.len(),
    {
        let ghost before = rest@;
        let ghost taken = actions@;
        let event = rest.remove(0);
        let ghost value = event@;
        let (next, action) = step(current, event);
        proof {
            assert(done.push(value).drop_last() =~= done);
            assert(done.push(value) + event_views(rest@) =~= done + event_views(before));
            assert(action_views(taken.push(action)) =~= action_views(taken).push(action@));
            done = done.push(value);
        }
        current = next;
        actions.push(action);
    }
    assert(done =~= all);
    (current, actions)
}

/// The result of a session whose stream was carried by a helper process:
/// `None` if the helper could not be run, else whether it exited with
/// success.
pub open spec fn helper_result(exit: Option<bool>) -> Result<(), RelayError> {
    match exit {
        None => Err(RelayError::ConnectFailed),
        Some(true) => Ok(()),
        Some(false) => Err(RelayError::StreamFailure),
    }
}

/// Turns the exit of the helper process into the result of the session.
pub fn helper_outcome(exit: Option<bool>) -> (r: Result<(), RelayError>)
    ensures
        r == helper_result(exit),
{
    match exit {
        None => Err(RelayError::ConnectFailed),
        Some(true) => Ok(()),
        Some(false) => Err(RelayError::StreamFailure),
    }
}

/// Whatever arrives, a relay that was streaming never reorders, alters or
/// invents a byte: what it has sent out is the beginning of what came in
/// locally, and what it has written locally is the beginning of what came in
/// from the remote side. While it still streams, nothing is held back.
pub proof fn relay_never_reorders(events: Seq<EventView>)
    ensures
        relay_run(RelayState::Streaming, events).0 != RelayState::Connecting,
        remote_output(relay_run(RelayState::Streaming, events).1).is_prefix_of(
            local_input(events),
        ),
        local_output(relay_run(RelayState::Streaming, events).1).is_prefix_of(
            remote_input(events),
        ),
        relay_run(RelayState::Streaming, events).0 == RelayState::Streaming ==> {
            &&& remote_output(relay_run(RelayState::Streaming, events).1) == local_input(events)
            &&& local_output(relay_run(RelayState::Streaming, events).1) == remote_input(events)
        },
    decreases events.len(),
{
    if events.len() > 0 {
        let earlier = events.drop_last();
        let before = relay_run(RelayState::Streaming, earlier);
        relay_never_reorders(earlier);
        let last = relay_step(before.0, events.last());
        let after = before.1.push(last.1);
        assert(after.drop_last() =~= before.1);
        let sent = remote_output(before.1);
        let written = local_output(before.1);
        assert(sent =~= local_input(earlier).subrange(0, sent.len() as int));
        assert(written =~= remote_input(earlier).subrange(0, written.len() as int));
        if before.0 == RelayState::Streaming {
            assert(remote_output(after) =~= local_input(events));
            assert(local_output(after) =~= remote_input(events));
        } else {
            assert(last.1 == ActionView::Wait);
            assert(remote_output(after) =~= sent);
            assert(local_output(after) =~= written);
            assert(sent =~= local_input(events).subrange(0, sent.len() as int));
            assert(written =~= remote_input(events).subrange(0, written.len() as int));
        }
    } else {
        assert(remote_output(Seq::<ActionView>::empty()) =~= local_input(events));
        assert(local_output(Seq::<ActionView>::empty()) =~= remote_input(events));
    }
}

/// While only data arrives, a streaming relay keeps streaming, and each
/// direction carries its bytes unchanged and in the order received: what is
/// sent out is what came in locally, what is written locally is what came in
/// from the remote side.
pub proof fn relay_preserves_order(events: Seq<EventView>)
    requires
        only_data(events),
    ensures
        relay_run(RelayState::Streaming, events).0 == RelayState::Streaming,
        remote_output(relay_run(RelayState::Streaming, events).1) == local_input(events),
        local_output(relay_run(RelayState::Streaming, events).1) == remote_input(events),
    decreases events.len(),
{
    if events.len() > 0 {
        let before = relay_run(RelayState::Streaming, events.drop_last());
        relay_preserves_order(events.drop_last());
        let last = relay_step(RelayState::Streaming, events.last());
        assert(events[events.len() - 1] is LocalChunk || events[events.len() - 1]
            is RemoteMessage);
        assert(before.1.push(last.1).drop_last() =~= before.1);
        assert(remote_output(before.1.push(last.1)) =~= local_input(events));
        assert(local_output(before.1.push(last.1)) =~= remote_input(events));
    }
}

/// Round trip: if the remote side echoes, so that what it delivers is what
/// was sent to it, then what is written to the local endpoint is what the
/// local endpoint delivered, unchanged and in order.
pub proof fn echo_round_trip(events: Seq<EventView>)
    requires
        only_data(events),
        remote_input(events) == remote_output(relay_run(RelayState::Streaming, events).1),
    ensures
        local_output(relay_run(RelayState::Streaming, events).1) == local_input(events),
{
    relay_preserves_order(events);
}

/// Cancellation: an interrupt while connecting or streaming calls for the
/// shutdown at once, without waiting for a byte. From then on no byte is
/// moved whatever arrives, a repeated interrupt changes nothing, and the
/// relay is either still tearing down or closed with success.
pub proof fn interrupt_stops_relay(state: RelayState, later: Seq<EventView>)
    requires
        state == RelayState::Connecting || state == RelayState::Streaming,
    ensures
        relay_step(state, EventView::Interrupt) == (RelayState::Cancelling, ActionView::Shutdown),
        relay_step(RelayState::Cancelling, EventView::Interrupt) == (
            RelayState::Cancelling,
            ActionView::Wait,
        ),
        relay_step(RelayState::Cancelling, EventView::Stopped).0 == RelayState::Closed(Ok(())),
        all_quiet(relay_run(RelayState::Cancelling, later).1),
        relay_run(RelayState::Cancelling, later).0 == RelayState::Cancelling || relay_run(
            RelayState::Cancelling,
            later,
        ).0 == RelayState::Closed(Ok(())),
    decreases later.len(),
{
    if later.len() > 0 {
        interrupt_stops_relay(state, later.drop_last());
    }
}

/// A closed relay stays closed with the same result, and asks for nothing.
pub proof fn closed_is_terminal(result: Result<(), RelayError>, later: Seq<EventView>)
    ensures
        relay_run(RelayState::Closed(result), later).0 == RelayState::Closed(result),
        all_quiet(relay_run(RelayState::Closed(result), later).1),
    decreases later.len(),
{
    if later.len() > 0 {
        closed_is_terminal(result, later.drop_last());
    }
}

} // verus!
