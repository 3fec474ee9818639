//! The server side: one listener, bound on request, and at most one accepted
//! connection, read from until the client closes it.
//!
//! The application queues intents with `bind` and `unbind` and collects what
//! arrived with `received_packets`. Once per tick the host calls `next_action`
//! until it returns `None`, performs each action on its sockets and reports how
//! it went with `completed`. Then it makes the one poll that the state calls
//! for: an accept when `wants_accept`, reported with `completed`, or a read when
//! `wants_read`, handed to `read_completed`.
//!
//! An accept is asked for only while no connection exists, so a second
//! connection never comes to be. Unbinding takes effect only while a client is
//! connected; otherwise the intent is dropped and the listener stays bound.

use crate::socket::{read_window, window, ReadResult, TransportError};
use crate::Packet;
use std::collections::VecDeque;
use vstd::prelude::*;

verus! {

/// Where the listener and the accepted connection stand. A connection
/// exists only beside a listener, so four states cover both.
#[derive(Clone, Copy, Debug, PartialEq, Eq, Structural)]
pub enum ServerState {
    /// No listener exists and none is being set up.
    Unbound,
    /// The host has been asked to bind this port and has not reported back.
    Binding(u16),
    /// A listener is bound to this port; no client is connected.
    Listening(u16),
    /// A listener is bound to this port and one client is connected.
    Serving(u16),
}

impl ServerState {
    /// Whether a listener exists.
    pub open spec fn has_listener(self) -> bool {
        self is Listening || self is Serving
    }

    /// Whether a connection exists.
    pub open spec fn has_connection(self) -> bool {
        self is Serving
    }
}

/// A request of the application to the server side.
#[derive(Clone, Copy, Debug, PartialEq, Eq, Structural)]
pub enum ServerIntent {
    /// Listen on the port, on every local address, unless a listener exists
    /// or is being set up.
    Bind(u16),
    /// Close the connection and the listener, if a client is connected.
    Unbind,
}

/// A socket call that the host is to make for the server side.
#[derive(Clone, Copy, Debug, PartialEq, Eq, Structural)]
pub enum ServerAction {
    /// Bind a listener to the port on the wildcard address and switch it to
    /// non-blocking mode.
    Listen(u16),
    /// Shut down both directions of the connection and release it. The
    /// listener stays.
    Close,
    /// Shut down both directions of the connection, then release the
    /// connection and the listener.
    Shutdown,
}

/// How a socket call that the server side asked for ended.
#[derive(Clone, Copy, Debug, PartialEq, Eq, Structural)]
pub enum ServerCompletion {
    /// The listener is bound and non-blocking.
    Bound,
    /// The port could not be bound.
    BindFailed,
    /// The accept returned a connection, and its socket is non-blocking.
    Accepted,
    /// The accept returned no connection: none was pending, or it failed.
    NonePending,
    /// A socket was set up but could not be switched to non-blocking mode;
    /// the host has dropped it.
    ModeFailed,
    /// The socket was shut down.
    Closed,
    /// Shutting the socket down failed.
    ShutdownFailed,
}

/// A notification of the server side to the application.
#[derive(Debug, PartialEq, Eq)]
pub enum ServerOutcome<P: Packet> {
    /// The client sent this packet.
    Received(P),
    /// The client closed the connection.
    Disconnected,
}

/// What one intent asks for in a given state: the state afterwards and the
/// action to take, or `None` where the intent is dropped.
pub open spec fn intent_step(state: ServerState, intent: ServerIntent) -> (
    ServerState,
    Option<ServerAction>,
) {
    match intent {
        ServerIntent::Bind(port) => match state {
            ServerState::Unbound => (ServerState::Binding(port), Some(ServerAction::Listen(port))),
            _ => (state, None),
        },
        ServerIntent::Unbind => match state {
            ServerState::Serving(_) => (ServerState::Unbound, Some(ServerAction::Shutdown)),
            _ => (state, None),
        },
    }
}

/// What the report of a finished socket call does to the state, and the
/// failure that it amounts to, if any.
pub open spec fn completion_step(state: ServerState, completion: ServerCompletion) -> (
    ServerState,
    Result<(), TransportError>,
) {
    match completion {
        ServerCompletion::Bound => match state {
            ServerState::Binding(port) => (ServerState::Listening(port), Ok(())),
            _ => (state, Ok(())),
        },
        ServerCompletion::BindFailed => (abandon_attempt(state), Err(TransportError::BindFailed)),
        ServerCompletion::Accepted => match state {
            ServerState::Listening(port) => (ServerState::Serving(port), Ok(())),
            _ => (state, Ok(())),
        },
        ServerCompletion::NonePending => (state, Ok(())),
        ServerCompletion::ModeFailed => (
            abandon_attempt(state),
            Err(TransportError::SocketModeFailed),
        ),
        ServerCompletion::Closed => (state, Ok(())),
        ServerCompletion::ShutdownFailed => (state, Err(TransportError::ShutdownFailed)),
    }
}

/// The state once an attempt to bind has come to nothing.
pub open spec fn abandon_attempt(state: ServerState) -> ServerState {
    match state {
        ServerState::Binding(_) => ServerState::Unbound,
        _ => state,
    }
}

/// The packet that an outcome carries, if it carries one.
pub open spec fn packet_of<P: Packet>(outcome: ServerOutcome<P>) -> Option<P> {
    match outcome {
        ServerOutcome::Received(packet) => Some(packet),
        ServerOutcome::Disconnected => None,
    }
}

/// `packet_of` as a function value.
pub open spec fn carried<P: Packet>() -> spec_fn(ServerOutcome<P>) -> Option<P> {
    |outcome: ServerOutcome<P>| packet_of(outcome)
}

/// Whether an outcome carries no packet, as a function value.
pub open spec fn bare<P: Packet>() -> spec_fn(ServerOutcome<P>) -> bool {
    |outcome: ServerOutcome<P>| packet_of(outcome) is None
}

/// The packets among the outcomes, in the order of the outcomes.
pub open spec fn received_of<P: Packet>(outcomes: Seq<ServerOutcome<P>>) -> Seq<P> {
    outcomes.filter_map(carried())
}

/// The outcomes that carry no packet, in their order.
pub open spec fn notices_of<P: Packet>(outcomes: Seq<ServerOutcome<P>>) -> Seq<ServerOutcome<P>> {
    outcomes.filter(bare())
}

/// The server side as contracts see it.
pub struct ServerView<P: Packet> {
    /// Where the listener and the connection stand.
    pub state: ServerState,
    /// The intents not yet taken, oldest first.
    pub intents: Seq<ServerIntent>,
    /// The outcomes not yet drained, oldest first.
    pub outcomes: Seq<ServerOutcome<P>>,
}

impl<P: Packet> ServerView<P> {
    /// A server that has done nothing yet.
    pub open spec fn initial() -> Self {
        ServerView { state: ServerState::Unbound, intents: Seq::empty(), outcomes: Seq::empty() }
    }

    /// The server with one more intent at the end of its queue.
    pub open spec fn enqueue(self, intent: ServerIntent) -> Self {
        ServerView { intents: self.intents.push(intent), ..self }
    }

    /// Takes intents off the queue, oldest first, up to and including the
    /// first that is not dropped, and answers with the action that it asks
    /// for; with `None` when the queue runs out.
    pub open spec fn next(self) -> (Self, Option<ServerAction>)
        decreases self.intents.len(),
    {
        if self.intents.len() == 0 {
            (self, None)
        } else {
            let (state, action) = intent_step(self.state, self.intents.first());
            let rest = ServerView { state, intents: self.intents.drop_first(), ..self };
            if action is None {
                rest.next()
            } else {
                (rest, action)
            }
        }
    }

    /// The server after the report of a finished socket call.
    pub open spec fn complete(self, completion: ServerCompletion) -> (
        Self,
        Result<(), TransportError>,
    ) {
        let (state, result) = completion_step(self.state, completion);
        (ServerView { state, ..self }, result)
    }

    /// Whether the host is to try an accept this tick: a listener exists and
    /// no connection does.
    pub open spec fn wants_accept(self) -> bool {
        self.state is Listening
    }

    /// Whether the host is to read from the connection this tick.
    pub open spec fn wants_read(self) -> bool {
        self.state is Serving
    }

    /// The server after one read, and what the read calls for.
    ///
    /// On a live connection, a read of no bytes means that the client has
    /// closed it: the connection goes, the listener stays, `Disconnected` is
    /// queued and the host is told to close the socket. A read of some bytes
    /// is one packet: the bytes that fit the read buffer are decoded and the
    /// packet is queued as `Received`; bytes that hold no packet are a
    /// `DecodeFailed` and change nothing. Any other read changes nothing.
    pub open spec fn read(self, read: Option<Seq<u8>>) -> (
        Self,
        Result<Option<ServerAction>, TransportError>,
    ) {
        match (self.state, read) {
            (ServerState::Serving(port), Some(bytes)) => {
                if bytes.len() == 0 {
                    (
                        ServerView {
                            state: ServerState::Listening(port),
                            outcomes: self.outcomes.push(ServerOutcome::Disconnected),
                            ..self
                        },
                        Ok(Some(ServerAction::Close)),
                    )
                } else {
                    match P::decoding(read_window(bytes)) {
                        Some(packet) => (
                            ServerView {
                                outcomes: self.outcomes.push(ServerOutcome::Received(packet)),
                                ..self
                            },
                            Ok(None),
                        ),
                        None => (self, Err(TransportError::DecodeFailed)),
                    }
                }
            },
            _ => (self, Ok(None)),
        }
    }
}

/// A bind intent that finds a listener, bound or being set up, is dropped:
/// the server goes on with the intents behind it as if it had not been
/// issued, and no second listener is bound.
pub proof fn lemma_bind_is_dropped_unless_unbound<P: Packet>(server: ServerView<P>, port: u16)
    requires
        !(server.state is Unbound),
        server.intents.len() > 0,
        server.intents.first() == ServerIntent::Bind(port),
    ensures
        server.next() == (ServerView { intents: server.intents.drop_first(), ..server }).next(),
{
}

/// Two bind intents in succession make one listener. Issued to a server
/// that has no listener and no intents waiting, the first binds its port;
/// the second is dropped, whether it is taken before or after the host has
/// reported that the listener is bound, and the listener stays the one on
/// the first port.
pub proof fn lemma_two_binds_make_one_listener<P: Packet>(
    server: ServerView<P>,
    first: u16,
    second: u16,
)
    requires
        server.state is Unbound,
        server.intents.len() == 0,
    ensures
        ({
            let queued = server.enqueue(ServerIntent::Bind(first)).enqueue(
                ServerIntent::Bind(second),
            );
            let (binding, action) = queued.next();
            let (bound, report) = binding.complete(ServerCompletion::Bound);
            &&& action == Some(ServerAction::Listen(first))
            &&& binding.state == ServerState::Binding(first)
            &&& binding.next().1 == None::<ServerAction>
            &&& binding.next().0.state == ServerState::Binding(first)
            &&& report == Ok::<(), TransportError>(())
            &&& bound.next().1 == None::<ServerAction>
            &&& bound.next().0.state == ServerState::Listening(first)
            &&& bound.next().0.intents.len() == 0
            &&& bound.next().0.outcomes == server.outcomes
        }),
{
    reveal_with_fuel(ServerView::next, 3);
    let queued = server.enqueue(ServerIntent::Bind(first)).enqueue(ServerIntent::Bind(second));
    assert(queued.intents.first() == ServerIntent::Bind(first));
    assert(queued.intents.drop_first() =~= seq![ServerIntent::Bind(second)]);
    let binding = queued.next().0;
    assert(binding.intents.first() == ServerIntent::Bind(second));
    assert(binding.intents.drop_first() =~= Seq::<ServerIntent>::empty());
}

/// An unbind intent takes effect only while a client is connected: then the
/// connection and the listener both go. In every other state it is dropped
/// and the state stays as it is.
pub proof fn lemma_unbind_needs_a_connection(state: ServerState)
    ensures
        intent_step(state, ServerIntent::Unbind) == if state.has_connection() {
            (ServerState::Unbound, Some(ServerAction::Shutdown))
        } else {
            (state, None::<ServerAction>)
        },
{
}

/// When the client closes the connection, the next read queues exactly one
/// `Disconnected` outcome, tells the host to close the socket and gives the
/// connection up, while the listener stays bound to its port and an accept
/// is asked for again. After that no read is asked for, and whatever a read
/// returns changes nothing.
pub proof fn lemma_end_of_stream_disconnects_once<P: Packet>(
    server: ServerView<P>,
    later: Option<Seq<u8>>,
)
    requires
        server.state is Serving,
    ensures
        ({
            let (closed, result) = server.read(Some(Seq::<u8>::empty()));
            &&& result == Ok::<Option<ServerAction>, TransportError>(Some(ServerAction::Close))
            &&& closed.state == ServerState::Listening(server.state->Serving_0)
            &&& closed.state.has_listener()
            &&& !closed.state.has_connection()
            &&& closed.outcomes == server.outcomes.push(ServerOutcome::Disconnected)
            &&& closed.intents == server.intents
            &&& !closed.wants_read()
            &&& closed.wants_accept()
            &&& closed.read(later) == (closed, Ok::<Option<ServerAction>, TransportError>(None))
        }),
{
}

/// The bytes that encode a packet, read in one piece from a live connection,
/// queue that packet as received and nothing else, provided that the
/// encoding is not empty and fits the read buffer.
pub proof fn lemma_encoding_is_received<P: Packet>(server: ServerView<P>, packet: P)
    requires
        server.state is Serving,
        0 < packet.encoding().len() <= crate::BUF_SIZE,
    ensures
        server.read(Some(packet.encoding())) == (
            ServerView { outcomes: server.outcomes.push(ServerOutcome::Received(packet)), ..server },
            Ok::<Option<ServerAction>, TransportError>(None),
        ),
{
    packet.round_trip();
}

/// A new outcome shows among the received packets, at the end, exactly when
/// it carries a packet; among the other outcomes, at the end, exactly when it
/// carries none.
pub proof fn lemma_outcome_is_queued_last<P: Packet>(
    outcomes: Seq<ServerOutcome<P>>,
    outcome: ServerOutcome<P>,
)
    ensures
        received_of(outcomes.push(outcome)) == match outcome {
            ServerOutcome::Received(packet) => received_of(outcomes).push(packet),
            ServerOutcome::Disconnected => received_of(outcomes),
        },
        notices_of(outcomes.push(outcome)) == match outcome {
            ServerOutcome::Received(_) => notices_of(outcomes),
            ServerOutcome::Disconnected => notices_of(outcomes).push(outcome),
        },
{
    let pushed = outcomes.push(outcome);
    assert(pushed.drop_last() =~= outcomes);
    assert(pushed.last() == outcome);
    reveal_with_fuel(Seq::filter_map, 2);
    assert(received_of(pushed) =~= match outcome {
        ServerOutcome::Received(packet) => received_of(outcomes).push(packet),
        ServerOutcome::Disconnected => received_of(outcomes),
    });
    outcomes.lemma_filter_push(outcome, bare());
}

/// The outcomes that stand for the arrival of `packets`, in their order.
pub open spec fn arrivals<P: Packet>(packets: Seq<P>) -> Seq<ServerOutcome<P>> {
    Seq::new(packets.len(), |i: int| ServerOutcome::Received(packets[i]))
}

/// Packets come out in the order of their arrival, each of them once: after
/// the arrival of `packets` on top of any outcomes, the received packets are
/// those that were queued before, followed by `packets` in their order; and
/// among the outcomes that a drain of the packets leaves behind, there is no
/// packet left to be returned again.
pub proof fn lemma_packets_drain_in_arrival_order<P: Packet>(
    outcomes: Seq<ServerOutcome<P>>,
    packets: Seq<P>,
)
    ensures
        received_of(outcomes + arrivals(packets)) == received_of(outcomes) + packets,
        received_of(arrivals(packets)) == packets,
        received_of(notices_of(outcomes)) == Seq::<P>::empty(),
{
    lemma_no_packet_among_notices(outcomes);
    lemma_arrivals_are_received(outcomes, packets);
    lemma_arrivals_are_received(Seq::empty(), packets);
    assert(Seq::<ServerOutcome<P>>::empty() + arrivals(packets) =~= arrivals(packets));
    assert(received_of(Seq::<ServerOutcome<P>>::empty()) =~= Seq::<P>::empty());
    assert(Seq::<P>::empty() + packets =~= packets);
}

/// Arrivals on top of queued outcomes add their packets, in order, behind
/// the packets that the queue held.
proof fn lemma_arrivals_are_received<P: Packet>(
    outcomes: Seq<ServerOutcome<P>>,
    packets: Seq<P>,
)
    ensures
        received_of(outcomes + arrivals(packets)) == received_of(outcomes) + packets,
    decreases packets.len(),
{
    if packets.len() == 0 {
        assert(outcomes + arrivals(packets) =~= outcomes);
        assert(received_of(outcomes) + packets =~= received_of(outcomes));
    } else {
        let earlier = packets.drop_last();
        lemma_arrivals_are_received(outcomes, earlier);
        lemma_outcome_is_queued_last(
            outcomes + arrivals(earlier),
            ServerOutcome::Received(packets.last()),
        );
        assert(outcomes + arrivals(packets) =~= (outcomes + arrivals(earlier)).push(
            ServerOutcome::Received(packets.last()),
        ));
        assert(received_of(outcomes) + packets =~= (received_of(outcomes) + earlier).push(
            packets.last(),
        ));
    }
}

/// The outcomes that carry no packet hold no packet.
proof fn lemma_no_packet_among_notices<P: Packet>(outcomes: Seq<ServerOutcome<P>>)
    ensures
        received_of(notices_of(outcomes)) == Seq::<P>::empty(),
    decreases outcomes.len(),
{
    if outcomes.len() == 0 {
        reveal(Seq::filter);
        assert(notices_of(outcomes) =~= Seq::<ServerOutcome<P>>::empty());
    } else {
        let earlier = outcomes.drop_last();
        lemma_no_packet_among_notices(earlier);
        assert(outcomes =~= earlier.push(outcomes.last()));
        lemma_outcome_is_queued_last(earlier, outcomes.last());
        match outcomes.last() {
            ServerOutcome::Received(_) => {},
            ServerOutcome::Disconnected => {
                lemma_outcome_is_queued_last(notices_of(earlier), outcomes.last());
            },
        }
    }
}

/// The server side of the transport, for packets of type `P`.
pub struct Server<P: Packet> {
    state: ServerState,
    intents: VecDeque<ServerIntent>,
    outcomes: Vec<ServerOutcome<P>>,
}

impl<P: Packet> View for Server<P> {
    type V = ServerView<P>;

    closed spec fn view(&self) -> ServerView<P> {
        ServerView { state: self.state, intents: self.intents@, outcomes: self.outcomes@ }
    }
}

impl<P: Packet> Server<P> {
    /// A server with no listener, no connection, no intents and no outcomes.
    pub fn new() -> (server: Self)
        ensures
            server@ == ServerView::<P>::initial(),
    {
        Server { state: ServerState::Unbound, intents: VecDeque::new(), outcomes: Vec::new() }
    }

    /// Where the listener and the connection stand.
    pub fn state(&self) -> (state: ServerState)
        ensures
            state == self@.state,
    {
        self.state
    }

    /// Queues the intent to listen on `port`.
    pub fn bind(&mut self, port: u16)
        ensures
            final(self)@ == old(self)@.enqueue(ServerIntent::Bind(port)),
    {
        self.intents.push_back(ServerIntent::Bind(port));
    }

    /// Queues the intent to close the connection and the listener.
    pub fn unbind(&mut self)
        ensures
            final(self)@ == old(self)@.enqueue(ServerIntent::Unbind),
    {
        self.intents.push_back(ServerIntent::Unbind);
    }

    /// Returns the packets received since the last call, in the order of
    /// their arrival, and takes them off the queue of outcomes. The other
    /// outcomes stay queued, in their order.
    pub fn received_packets(&mut self) -> (packets: Vec<P>)
        ensures
            packets@ == received_of(old(self)@.outcomes),
            final(self)@ == (ServerView {
                outcomes: notices_of(old(self)@.outcomes),
                ..old(self)@
            }),
    {
        let mut queued = Vec::new();
        std::mem::swap(&mut queued, &mut self.outcomes);
        let mut packets = Vec::new();
        let mut i: usize = 0;
        while i < queued.len()
            invariant
                i <= queued.len(),
                queued@ == old(self)@.outcomes,
                packets@ == received_of(queued@.take(i as int)),
                self.outcomes@ == notices_of(queued@.take(i as int)),
                self.state == old(self).state,
                self.intents == old(self).intents,
            decreases queued.len() - i,
        {
            proof {
                queued@.lemma_filter_map_take_succ(carried(), i as int);
                assert(queued@.take(i + 1) == queued@.take(i as int).push(queued@[i as int]));
                queued@.take(i as int).lemma_filter_push(queued@[i as int], bare());
            }
            match &queued[i] {
                ServerOutcome::Received(packet) => {
                    packets.push(*packet);
                },
                ServerOutcome::Disconnected => {
                    self.outcomes.push(ServerOutcome::Disconnected);
                },
            }
            i += 1;
        }
        assert(queued@.take(i as int) == queued@);
        packets
    }

    /// Returns all outcomes queued since they were last taken, oldest first,
    /// and empties the queue.
    pub fn drain_outcomes(&mut self) -> (drained: Vec<ServerOutcome<P>>)
        ensures
            drained@ == old(self)@.outcomes,
            final(self)@ == (ServerView { outcomes: Seq::empty(), ..old(self)@ }),
    {
        let mut drained = Vec::new();
        std::mem::swap(&mut drained, &mut self.outcomes);
        drained
    }

    /// Serves one intent: moves the state on and says what the host is to do.
    fn serve(&mut self, intent: ServerIntent) -> (action: Option<ServerAction>)
        ensures
            final(self).state == intent_step(old(self).state, intent).0,
            action == intent_step(old(self).state, intent).1,
            final(self).intents == old(self).intents,
            final(self).outcomes == old(self).outcomes,
    {
        match intent {
            ServerIntent::Bind(port) => match self.state {
                ServerState::Unbound => {
                    self.state = ServerState::Binding(port);
                    Some(ServerAction::Listen(port))
                },
                _ => None,
            },
            ServerIntent::Unbind => match self.state {
                ServerState::Serving(_) => {
                    self.state = ServerState::Unbound;
                    Some(ServerAction::Shutdown)
                },
                _ => None,
            },
        }
    }

    /// Takes the queued intents in order until one calls for a socket call,
    /// and returns that action. Intents that ask for what already holds, or
    /// for what cannot be done now, are dropped on the way. `None` means that
    /// the queue is empty.
    pub fn next_action(&mut self) -> (action: Option<ServerAction>)
        ensures
            final(self)@ == old(self)@.next().0,
            action == old(self)@.next().1,
    {
        let ghost start = self@;
        loop
            invariant
                start == old(self)@,
                self@.next() == start.next(),
            decreases self.intents@.len(),
        {
            let ghost before = self@;
            match self.intents.pop_front() {
                None => {
                    assert(self@ == before);
                    return None;
                },
                Some(intent) => {
                    let action = self.serve(intent);
                    assert(intent == before.intents.first());
                    assert(self@.intents == before.intents.drop_first());
                    if action.is_some() {
                        return action;
                    }
                },
            }
        }
    }

    /// Takes the host's report of how a socket call ended. A listener that
    /// was bound is listened on; an accepted connection becomes the one
    /// connection; an attempt to bind that failed is given up. Every failure
    /// is returned as the error that it amounts to.
    pub fn completed(&mut self, completion: ServerCompletion) -> (result: Result<
        (),
        TransportError,
    >)
        ensures
            final(self)@ == old(self)@.complete(completion).0,
            result == old(self)@.complete(completion).1,
    {
        match completion {
            ServerCompletion::Bound => {
                if let ServerState::Binding(port) = self.state {
                    self.state = ServerState::Listening(port);
                }
                Ok(())
            },
            ServerCompletion::BindFailed => {
                self.abandon();
                Err(TransportError::BindFailed)
            },
            ServerCompletion::Accepted => {
                if let ServerState::Listening(port) = self.state {
                    self.state = ServerState::Serving(port);
                }
                Ok(())
            },
            ServerCompletion::NonePending => Ok(()),
            ServerCompletion::ModeFailed => {
                self.abandon();
                Err(TransportError::SocketModeFailed)
            },
            ServerCompletion::Closed => Ok(()),
            ServerCompletion::ShutdownFailed => Err(TransportError::ShutdownFailed),
        }
    }

    /// Gives up an attempt to bind, if one is under way.
    fn abandon(&mut self)
        ensures
            final(self).state == abandon_attempt(old(self).state),
            final(self).intents == old(self).intents,
            final(self).outcomes == old(self).outcomes,
    {
        if let ServerState::Binding(_) = self.state {
            self.state = ServerState::Unbound;
        }
    }

    /// Whether the host is to try an accept this tick: exactly when a
    /// listener exists and no connection does.
    pub fn wants_accept(&self) -> (wanted: bool)
        ensures
            wanted == self@.wants_accept(),
    {
        match self.state {
            ServerState::Listening(_) => true,
            _ => false,
        }
    }

    /// Whether the host is to make a read this tick: exactly when a
    /// connection exists.
    pub fn wants_read(&self) -> (wanted: bool)
        ensures
            wanted == self@.wants_read(),
    {
        match self.state {
            ServerState::Serving(_) => true,
            _ => false,
        }
    }

    /// Takes the result of the tick's read. When the connection returned no
    /// bytes, the client has closed it: the connection is given up, a
    /// `Disconnected` outcome is queued and the host is told to close the
    /// socket, while the listener stays. Bytes that did arrive are decoded as
    /// one packet, as far as they fit the read buffer, and the packet is
    /// queued as `Received`; if they hold no packet, `DecodeFailed` is
    /// returned and nothing changes. A read that was not ready, or one made
    /// while no connection exists, changes nothing.
    pub fn read_completed(&mut self, read: &ReadResult) -> (result: Result<
        Option<ServerAction>,
        TransportError,
    >)
        ensures
            final(self)@ == old(self)@.read(read@).0,
            result == old(self)@.read(read@).1,
    {
        match (self.state, read) {
            (ServerState::Serving(port), ReadResult::Bytes(bytes)) => {
                if bytes.len() == 0 {
                    self.state = ServerState::Listening(port);
                    self.outcomes.push(ServerOutcome::Disconnected);
                    Ok(Some(ServerAction::Close))
                } else {
                    match P::try_deserialize_packet(window(bytes.as_slice())) {
                        Some(packet) => {
                            self.outcomes.push(ServerOutcome::Received(packet));
                            Ok(None)
                        },
                        None => Err(TransportError::DecodeFailed),
                    }
                }
            },
            _ => Ok(None),
        }
    }
}

} // verus!
