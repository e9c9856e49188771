//! A connection whose handshake is deferred until the connection is first used.
//!
//! The stream starts out holding a pending handshake. Whoever drives it reports
//! what happens ([`Event`]) and is told what to do next ([`Action`]); the
//! handshake itself, and the stream it yields, are values the driver owns the
//! meaning of.

use vstd::prelude::*;
use crate::error::{ErrorKind, IoError, IoErrorView};

verus! {

/// What a caller asks of the connection.
#[derive(Clone, Copy, Debug, PartialEq, Eq, Structural)]
pub enum Operation {
    Read,
    Write,
    Flush,
    Shutdown,
    /// The query for the negotiated protocol version.
    HttpVersion,
}

/// What the driver reports to the connection.
#[derive(Debug, PartialEq, Eq)]
pub enum Event<S> {
    /// A caller has just issued an operation.
    Issued,
    /// The handshake was polled and is still in flight.
    Pending,
    /// The handshake was polled and yielded this stream.
    Established(S),
    /// The handshake was polled and failed; the message of the cause.
    Rejected(String),
}

/// An [`Event`] with its message as a sequence of characters.
pub enum EventView<S> {
    Issued,
    Pending,
    Established(S),
    Rejected(Seq<char>),
}

impl<S> View for Event<S> {
    type V = EventView<S>;

    open spec fn view(&self) -> EventView<S> {
        match *self {
            Event::Issued => EventView::Issued,
            Event::Pending => EventView::Pending,
            Event::Established(stream) => EventView::Established(stream),
            Event::Rejected(cause) => EventView::Rejected(cause@),
        }
    }
}

/// What the driver is to do next.
#[derive(Debug, PartialEq, Eq)]
pub enum Action {
    /// Poll the pending handshake and report what came of it.
    Handshake,
    /// Tell the caller that the operation is pending.
    Suspend,
    /// Run the operation on the established stream and return its result.
    Delegate(Operation),
    /// Return this error to the caller.
    Fail(IoError),
    /// Tell the caller that no protocol version is known.
    NoVersion,
}

/// An [`Action`] with its error's message as a sequence of characters.
pub enum ActionView {
    Handshake,
    Suspend,
    Delegate(Operation),
    Fail(IoErrorView),
    NoVersion,
}

impl View for Action {
    type V = ActionView;

    open spec fn view(&self) -> ActionView {
        match *self {
            Action::Handshake => ActionView::Handshake,
            Action::Suspend => ActionView::Suspend,
            Action::Delegate(op) => ActionView::Delegate(op),
            Action::Fail(error) => ActionView::Fail(error@),
            Action::NoVersion => ActionView::NoVersion,
        }
    }
}

/// Where a connection stands: exactly one of these at any time.
pub enum HandshakeState<F, S> {
    /// The handshake `F` is pending.
    Handshaking(F),
    /// The handshake yielded the stream `S`.
    Ready(S),
    /// The handshake failed; the message of the cause.
    Failed(Seq<char>),
}

impl<F, S> HandshakeState<F, S> {
    /// Whether the handshake is over, one way or the other.
    pub open spec fn is_settled(self) -> bool {
        !(self is Handshaking)
    }
}

/// What a connection whose handshake failed with `cause` answers to `op`.
///
/// An operation that moves bytes fails with the cause's message; the version
/// query reports that no version is known.
pub open spec fn refusal(op: Operation, cause: Seq<char>) -> ActionView {
    if op is HttpVersion {
        ActionView::NoVersion
    } else {
        ActionView::Fail(IoErrorView { kind: ErrorKind::InvalidData, message: cause })
    }
}

/// The state after `event` is reported in `state`.
///
/// Only a pending handshake that is reported finished changes the state.
pub open spec fn next_state<F, S>(state: HandshakeState<F, S>, event: EventView<S>)
    -> HandshakeState<F, S> {
    match (state, event) {
        (HandshakeState::Handshaking(_), EventView::Established(stream)) => HandshakeState::Ready(stream),
        (HandshakeState::Handshaking(_), EventView::Rejected(cause)) => HandshakeState::Failed(cause),
        _ => state,
    }
}

/// What the driver is told when `event` is reported in `state` during `op`.
pub open spec fn next_action<F, S>(state: HandshakeState<F, S>, op: Operation, event: EventView<S>)
    -> ActionView {
    match next_state(state, event) {
        HandshakeState::Handshaking(_) => if event is Pending {
            ActionView::Suspend
        } else {
            ActionView::Handshake
        },
        HandshakeState::Ready(_) => ActionView::Delegate(op),
        HandshakeState::Failed(cause) => refusal(op, cause),
    }
}

/// The state after each of `events` was reported in turn, starting in `state`.
pub open spec fn run<F, S>(state: HandshakeState<F, S>, events: Seq<EventView<S>>)
    -> HandshakeState<F, S>
    decreases events.len(),
{
    if events.len() == 0 {
        state
    } else {
        next_state(run(state, events.drop_last()), events.last())
    }
}

/// One operation as its caller sees it, from the moment it is issued to the
/// answer: the state afterwards, and the last thing the driver is told.
///
/// The operation is issued. If the connection then asks for the handshake,
/// the driver polls it once and reports `polled`; whatever the connection
/// says to that is the answer.
pub open spec fn call<F, S>(state: HandshakeState<F, S>, op: Operation, polled: EventView<S>) -> (
    HandshakeState<F, S>,
    ActionView,
) {
    if next_action(state, op, EventView::Issued) is Handshake {
        (next_state(state, polled), next_action(state, op, polled))
    } else {
        (state, next_action(state, op, EventView::Issued))
    }
}

enum State<F, S> {
    Handshaking(F),
    Ready(S),
    Error(String),
}

/// A connection that runs its handshake when it is first used.
pub struct TlsConnStream<F, S> {
    state: State<F, S>,
}

impl<F, S> View for TlsConnStream<F, S> {
    type V = HandshakeState<F, S>;

    closed spec fn view(&self) -> HandshakeState<F, S> {
        match self.state {
            State::Handshaking(handshake) => HandshakeState::Handshaking(handshake),
            State::Ready(stream) => HandshakeState::Ready(stream),
            State::Error(cause) => HandshakeState::Failed(cause@),
        }
    }
}

/// The answer of a failed connection to `op`, as a value.
fn refuse(op: Operation, cause: &String) -> (action: Action)
    ensures
        action@ == refusal(op, cause@),
{
    match op {
        Operation::HttpVersion => Action::NoVersion,
        _ => Action::Fail(IoError::new(ErrorKind::InvalidData, cause.clone())),
    }
}

impl<F, S> TlsConnStream<F, S> {
    /// A connection whose handshake `handshake` has not been run yet.
    pub fn new(handshake: F) -> (stream: Self)
        ensures
            stream@ == HandshakeState::<F, S>::Handshaking(handshake),
    {
        TlsConnStream { state: State::Handshaking(handshake) }
    }

    /// Whether the handshake is still pending.
    pub fn is_handshaking(&self) -> (pending: bool)
        ensures
            pending == (self@ is Handshaking),
    {
        match &self.state {
            State::Handshaking(_) => true,
            _ => false,
        }
    }

    /// Whether the handshake yielded a stream.
    pub fn is_ready(&self) -> (ready: bool)
        ensures
            ready == (self@ is Ready),
    {
        match &self.state {
            State::Ready(_) => true,
            _ => false,
        }
    }

    /// Whether the handshake failed.
    pub fn is_failed(&self) -> (failed: bool)
        ensures
            failed == (self@ is Failed),
    {
        match &self.state {
            State::Error(_) => true,
            _ => false,
        }
    }

    /// The message of the cause, if the handshake failed.
    pub fn failure(&self) -> (cause: Option<&str>)
        ensures
            match self@ {
                HandshakeState::Failed(message) => cause matches Some(text) && text@ == message,
                _ => cause is None,
            },
    {
        match &self.state {
            State::Error(cause) => Some(cause.as_str()),
            _ => None,
        }
    }

    /// The established stream, if the handshake yielded one.
    pub fn stream(&self) -> (stream: Option<&S>)
        ensures
            match self@ {
                HandshakeState::Ready(established) => stream == Some(&established),
                _ => stream is None,
            },
    {
        match &self.state {
            State::Ready(stream) => Some(stream),
            _ => None,
        }
    }

    /// The pending handshake, for the driver to poll; `None` once it is over.
    pub fn handshake_mut(&mut self) -> (handshake: Option<&mut F>)
        ensures
            match old(self)@ {
                HandshakeState::Handshaking(pending) => handshake matches Some(h) && *h == pending
                    && final(self)@ == HandshakeState::<F, S>::Handshaking(*final(h)),
                _ => handshake is None && final(self)@ == old(self)@,
            },
    {
        match &mut self.state {
            State::Handshaking(handshake) => Some(handshake),
            _ => None,
        }
    }

    /// The established stream, for the driver to run an operation on; `None`
    /// while the handshake is pending and after it failed.
    pub fn stream_mut(&mut self) -> (stream: Option<&mut S>)
        ensures
            match old(self)@ {
                HandshakeState::Ready(established) => stream matches Some(s) && *s == established
                    && final(self)@ == HandshakeState::<F, S>::Ready(*final(s)),
                _ => stream is None && final(self)@ == old(self)@,
            },
    {
        match &mut self.state {
            State::Ready(stream) => Some(stream),
            _ => None,
        }
    }

    /// Takes `event` during `op` and says what the driver is to do next.
    ///
    /// A report that the handshake is over is taken up only while the
    /// handshake is pending; a connection that is ready or has failed stays
    /// as it is and answers as its state demands.
    pub fn poll(&mut self, op: Operation, event: Event<S>) -> (action: Action)
        ensures
            final(self)@ == next_state(old(self)@, event@),
            action@ == next_action(old(self)@, op, event@),
    {
        match &self.state {
            State::Handshaking(_) => match event {
                Event::Issued => Action::Handshake,
                Event::Pending => Action::Suspend,
                Event::Established(stream) => {
                    self.state = State::Ready(stream);
                    Action::Delegate(op)
                },
                Event::Rejected(cause) => {
                    let action = refuse(op, &cause);
                    self.state = State::Error(cause);
                    action
                },
            },
            State::Ready(_) => Action::Delegate(op),
            State::Error(cause) => refuse(op, cause),
        }
    }

    /// [`poll`](Self::poll) for a read.
    pub fn poll_read(&mut self, event: Event<S>) -> (action: Action)
        ensures
            final(self)@ == next_state(old(self)@, event@),
            action@ == next_action(old(self)@, Operation::Read, event@),
    {
        self.poll(Operation::Read, event)
    }

    /// [`poll`](Self::poll) for a write.
    pub fn poll_write(&mut self, event: Event<S>) -> (action: Action)
        ensures
            final(self)@ == next_state(old(self)@, event@),
            action@ == next_action(old(self)@, Operation::Write, event@),
    {
        self.poll(Operation::Write, event)
    }

    /// [`poll`](Self::poll) for a flush.
    pub fn poll_flush(&mut self, event: Event<S>) -> (action: Action)
        ensures
            final(self)@ == next_state(old(self)@, event@),
            action@ == next_action(old(self)@, Operation::Flush, event@),
    {
        self.poll(Operation::Flush, event)
    }

    /// [`poll`](Self::poll) for a shutdown.
    pub fn poll_shutdown(&mut self, event: Event<S>) -> (action: Action)
        ensures
            final(self)@ == next_state(old(self)@, event@),
            action@ == next_action(old(self)@, Operation::Shutdown, event@),
    {
        self.poll(Operation::Shutdown, event)
    }

    /// [`poll`](Self::poll) for the version query: a failed handshake is
    /// answered with [`Action::NoVersion`], never with an error.
    pub fn http_version(&mut self, event: Event<S>) -> (action: Action)
        ensures
            final(self)@ == next_state(old(self)@, event@),
            action@ == next_action(old(self)@, Operation::HttpVersion, event@),
            !(action@ is Fail),
    {
        self.poll(Operation::HttpVersion, event)
    }
}

/// A step changes the state only by ending a pending handshake.
pub proof fn lemma_transition_is_one_way<F, S>(state: HandshakeState<F, S>, event: EventView<S>)
    ensures
        state.is_settled() ==> next_state(state, event) == state,
        next_state(state, event) != state ==> state is Handshaking && next_state(state, event).is_settled(),
{
}

/// Once a connection is ready or has failed, it stays exactly so: no events,
/// however many, change its state.
pub proof fn lemma_settled_state_is_final<F, S>(state: HandshakeState<F, S>, events: Seq<EventView<S>>)
    requires
        state.is_settled(),
    ensures
        run(state, events) == state,
    decreases events.len(),
{
    if events.len() > 0 {
        lemma_settled_state_is_final(state, events.drop_last());
    }
}

/// No operation gets past a pending handshake: while the handshake is
/// pending, an operation that is issued is answered by sending the driver to
/// the handshake, never by running the operation or by an answer to the caller.
pub proof fn lemma_pending_handshake_is_driven_first<F, S>(handshake: F, op: Operation)
    ensures
        next_action(HandshakeState::<F, S>::Handshaking(handshake), op, EventView::<S>::Issued)
            == ActionView::Handshake,
        next_state(HandshakeState::<F, S>::Handshaking(handshake), EventView::<S>::Issued)
            == HandshakeState::<F, S>::Handshaking(handshake),
{
}

/// In a run from any state, the state reached at a point where the handshake
/// is over is the state at every later point.
pub proof fn lemma_state_never_changes_again<F, S>(
    state: HandshakeState<F, S>,
    events: Seq<EventView<S>>,
    i: int,
    j: int,
)
    requires
        0 <= i <= j <= events.len(),
        run(state, events.take(i)).is_settled(),
    ensures
        run(state, events.take(j)) == run(state, events.take(i)),
    decreases j - i,
{
    if i < j {
        lemma_state_never_changes_again(state, events, i, j - 1);
        assert(events.take(j).drop_last() =~= events.take(j - 1));
    }
}

/// In a run from any state, the state changes at most once: after a step
/// that changed it, no later step does.
pub proof fn lemma_state_changes_at_most_once<F, S>(
    state: HandshakeState<F, S>,
    events: Seq<EventView<S>>,
    i: int,
    j: int,
)
    requires
        0 <= i < j < events.len(),
        run(state, events.take(i + 1)) != run(state, events.take(i)),
    ensures
        run(state, events.take(j + 1)) == run(state, events.take(j)),
{
    assert(events.take(i + 1).drop_last() =~= events.take(i));
    lemma_transition_is_one_way(run(state, events.take(i)), events[i]);
    lemma_state_never_changes_again(state, events, i + 1, j);
    lemma_state_never_changes_again(state, events, i + 1, j + 1);
}

/// Where the end of the handshake is reported twice, as when a read and a
/// write both drive it, the report that comes first settles the state, and the
/// one that comes second is answered as any operation on the settled
/// connection is: the handshake's second outcome is dropped.
pub proof fn lemma_handshake_settles_once<F, S>(
    handshake: F,
    first: EventView<S>,
    second: EventView<S>,
    op: Operation,
)
    requires
        first is Established || first is Rejected,
    ensures
        ({
            let pending = HandshakeState::<F, S>::Handshaking(handshake);
            let settled = next_state(pending, first);
            &&& settled.is_settled()
            &&& next_state(settled, second) == settled
            &&& next_action(settled, op, second) == next_action(pending, op, first)
        }),
{
}

/// An operation is answered after at most one poll of the handshake: the
/// driver is never sent back to the handshake a second time in one call.
pub proof fn lemma_call_takes_one_poll<F, S>(
    state: HandshakeState<F, S>,
    op: Operation,
    polled: EventView<S>,
)
    requires
        !(polled is Issued),
    ensures
        !(call(state, op, polled).1 is Handshake),
        call(state, op, polled).0 == next_state(state, polled),
{
}

/// An operation issued while the handshake is pending, during which the
/// handshake yields a stream, is run on that stream in the same call: the
/// caller does not have to issue it again.
pub proof fn lemma_completion_is_followed_by_the_operation<F, S>(handshake: F, stream: S, op: Operation)
    ensures
        call(HandshakeState::Handshaking(handshake), op, EventView::Established(stream)) == (
            HandshakeState::<F, S>::Ready(stream),
            ActionView::Delegate(op),
        ),
{
}

/// An operation issued while the handshake is pending, during which the
/// handshake fails, gets the failure as its answer in the same call: an error
/// with the cause's message for an operation that moves bytes, no version for
/// the version query.
pub proof fn lemma_failure_is_reported_in_the_same_call<F, S>(
    handshake: F,
    cause: Seq<char>,
    op: Operation,
)
    ensures
        call(HandshakeState::<F, S>::Handshaking(handshake), op, EventView::Rejected(cause)) == (
            HandshakeState::<F, S>::Failed(cause),
            refusal(op, cause),
        ),
{
}

/// A connection whose handshake failed answers every read, write, flush and
/// shutdown with the same error, made from the cause it keeps, whatever was
/// reported to it before and however often; and it never tells a version.
pub proof fn lemma_failure_is_replayed<F, S>(
    cause: Seq<char>,
    events: Seq<EventView<S>>,
    op: Operation,
    event: EventView<S>,
)
    ensures
        run(HandshakeState::<F, S>::Failed(cause), events) == HandshakeState::<F, S>::Failed(cause),
        next_action(run(HandshakeState::<F, S>::Failed(cause), events), op, event) == refusal(op, cause),
        call(run(HandshakeState::<F, S>::Failed(cause), events), op, event) == (
            HandshakeState::<F, S>::Failed(cause),
            refusal(op, cause),
        ),
        op != Operation::HttpVersion ==> refusal(op, cause) == ActionView::Fail(
            IoErrorView { kind: ErrorKind::InvalidData, message: cause },
        ),
        op == Operation::HttpVersion ==> refusal(op, cause) == ActionView::NoVersion,
{
    lemma_settled_state_is_final(HandshakeState::<F, S>::Failed(cause), events);
}

/// A connection whose handshake yielded a stream hands every operation to
/// that stream, whatever was reported to it before and however often.
pub proof fn lemma_ready_stream_is_delegated_to<F, S>(
    stream: S,
    events: Seq<EventView<S>>,
    op: Operation,
    event: EventView<S>,
)
    ensures
        call(run(HandshakeState::<F, S>::Ready(stream), events), op, event) == (
            HandshakeState::<F, S>::Ready(stream),
            ActionView::Delegate(op),
        ),
{
    lemma_settled_state_is_final(HandshakeState::<F, S>::Ready(stream), events);
}

} // verus!
