//! The client side: one connection, opened on request, written to, watched
//! for the peer's shutdown, and closed on request.
//!
//! The application queues intents with `connect`, `disconnect` and
//! `send_packet`. Once per tick the host calls `next_action` until it returns
//! `Ok(None)`, performs each action on its socket and reports how it went with
//! `completed`. Then, if `wants_read` says so, it makes one non-blocking read
//! and hands the result to `read_completed`.
//!
//! Intents are taken in the order in which they were issued, whatever their
//! kind. A disconnect or a send that finds no connection is reported as
//! `TransportError::NotConnected`; the intent is consumed and nothing else
//! changes. Bytes that the server sends are read and dropped.

use crate::socket::{ReadResult, SocketAddress, TransportError};
use crate::Packet;
use std::collections::VecDeque;
use vstd::prelude::*;

verus! {

/// Where the client's one connection stands.
#[derive(Clone, Copy, Debug, PartialEq, Eq, Structural)]
pub enum ClientState {
    /// No connection exists and none is being made.
    Disconnected,
    /// The host has been asked to connect to this address and has not
    /// reported back yet.
    Connecting(SocketAddress),
    /// A connection to this address is live.
    Connected(SocketAddress),
}

/// A request of the application to the client side.
#[derive(Debug)]
pub enum ClientIntent<P: Packet> {
    /// Connect to the address, unless a connection exists or is being made.
    Connect(SocketAddress),
    /// Close the connection.
    Disconnect,
    /// Send the packet over the connection.
    Send(P),
}

/// A socket call that the host is to make for the client side.
#[derive(Debug)]
pub enum ClientAction {
    /// Connect to the address, blocking, then switch the new socket to
    /// non-blocking mode.
    Open(SocketAddress),
    /// Write all of these bytes to the connection.
    Write(Vec<u8>),
    /// Shut down both directions of the connection and release it.
    Close,
}

/// A `ClientAction` as contracts see it: the bytes to write as a sequence.
pub enum ClientActionView {
    Open(SocketAddress),
    Write(Seq<u8>),
    Close,
}

impl View for ClientAction {
    type V = ClientActionView;

    open spec fn view(&self) -> ClientActionView {
        match *self {
            ClientAction::Open(address) => ClientActionView::Open(address),
            ClientAction::Write(bytes) => ClientActionView::Write(bytes@),
            ClientAction::Close => ClientActionView::Close,
        }
    }
}

/// How a socket call that the client side asked for ended.
#[derive(Clone, Copy, Debug, PartialEq, Eq, Structural)]
pub enum ClientCompletion {
    /// The connection is made and its socket is non-blocking.
    Opened,
    /// The connection attempt failed.
    ConnectFailed,
    /// The connection was made, but its socket could not be switched to
    /// non-blocking mode; the host has dropped it.
    ModeFailed,
    /// All bytes were written.
    Written,
    /// The write failed, or wrote less than all bytes.
    WriteFailed,
    /// The socket was shut down.
    Closed,
    /// Shutting the socket down failed.
    ShutdownFailed,
}

/// A notification of the client side to the application.
#[derive(Clone, Copy, Debug, PartialEq, Eq, Structural)]
pub enum ClientOutcome {
    /// The server closed the connection.
    Unbound,
}

/// What `next_action` and the functions around it answer, as contracts see it.
pub type ClientStep = Result<Option<ClientActionView>, TransportError>;

/// The view of an answer that carries an action.
pub open spec fn step_view(result: Result<Option<ClientAction>, TransportError>) -> ClientStep {
    match result {
        Ok(Some(action)) => Ok(Some(action@)),
        Ok(None) => Ok(None),
        Err(error) => Err(error),
    }
}

/// What one intent asks for in a given state: the state afterwards, and the
/// action to take, nothing to do (`Ok(None)`, the intent is dropped), or the
/// reason why the intent cannot be served.
pub open spec fn intent_step<P: Packet>(state: ClientState, intent: ClientIntent<P>) -> (
    ClientState,
    ClientStep,
) {
    match intent {
        ClientIntent::Connect(address) => match state {
            ClientState::Disconnected => (
                ClientState::Connecting(address),
                Ok(Some(ClientActionView::Open(address))),
            ),
            _ => (state, Ok(None)),
        },
        ClientIntent::Disconnect => match state {
            ClientState::Connected(_) => (
                ClientState::Disconnected,
                Ok(Some(ClientActionView::Close)),
            ),
            _ => (state, Err(TransportError::NotConnected)),
        },
        ClientIntent::Send(packet) => match state {
            ClientState::Connected(_) => (
                state,
                Ok(Some(ClientActionView::Write(packet.encoding()))),
            ),
            _ => (state, Err(TransportError::NotConnected)),
        },
    }
}

/// What the report of a finished socket call does to the state, and the
/// failure that it amounts to, if any.
pub open spec fn completion_step(state: ClientState, completion: ClientCompletion) -> (
    ClientState,
    Result<(), TransportError>,
) {
    match completion {
        ClientCompletion::Opened => match state {
            ClientState::Connecting(address) => (ClientState::Connected(address), Ok(())),
            _ => (state, Ok(())),
        },
        ClientCompletion::ConnectFailed => (
            abandon_attempt(state),
            Err(TransportError::ConnectFailed),
        ),
        ClientCompletion::ModeFailed => (
            abandon_attempt(state),
            Err(TransportError::SocketModeFailed),
        ),
        ClientCompletion::Written => (state, Ok(())),
        ClientCompletion::WriteFailed => (state, Err(TransportError::WriteFailed)),
        ClientCompletion::Closed => (state, Ok(())),
        ClientCompletion::ShutdownFailed => (state, Err(TransportError::ShutdownFailed)),
    }
}

/// The state once a connection attempt has come to nothing.
pub open spec fn abandon_attempt(state: ClientState) -> ClientState {
    match state {
        ClientState::Connecting(_) => ClientState::Disconnected,
        _ => state,
    }
}

/// The client side as contracts see it.
pub struct ClientView<P: Packet> {
    /// Where the connection stands.
    pub state: ClientState,
    /// The intents not yet taken, oldest first.
    pub intents: Seq<ClientIntent<P>>,
    /// The outcomes not yet drained, oldest first.
    pub outcomes: Seq<ClientOutcome>,
}

impl<P: Packet> ClientView<P> {
    /// A client that has done nothing yet.
    pub open spec fn initial() -> Self {
        ClientView { state: ClientState::Disconnected, intents: Seq::empty(), outcomes: Seq::empty() }
    }

    /// The client with one more intent at the end of its queue.
    pub open spec fn enqueue(self, intent: ClientIntent<P>) -> Self {
        ClientView { intents: self.intents.push(intent), ..self }
    }

    /// Takes intents off the queue, oldest first, up to and including the
    /// first that is not dropped, and answers with what that one asks for;
    /// with `Ok(None)` when the queue runs out.
    pub open spec fn next(self) -> (Self, ClientStep)
        decreases self.intents.len(),
    {
        if self.intents.len() == 0 {
            (self, Ok(None))
        } else {
            let (state, step) = intent_step(self.state, self.intents.first());
            let rest = ClientView { state, intents: self.intents.drop_first(), ..self };
            if step == Ok::<Option<ClientActionView>, TransportError>(None) {
                rest.next()
            } else {
                (rest, step)
            }
        }
    }

    /// The client after the report of a finished socket call.
    pub open spec fn complete(self, completion: ClientCompletion) -> (
        Self,
        Result<(), TransportError>,
    ) {
        let (state, result) = completion_step(self.state, completion);
        (ClientView { state, ..self }, result)
    }

    /// Whether the host is to read from the connection this tick.
    pub open spec fn wants_read(self) -> bool {
        self.state is Connected
    }

    /// The client after one read, and the action that the read calls for.
    ///
    /// A read of no bytes on a live connection means that the server has
    /// closed it: the connection goes, `Unbound` is queued, and the host is
    /// told to close its socket. Any other read changes nothing.
    pub open spec fn read(self, read: Option<Seq<u8>>) -> (Self, Option<ClientActionView>) {
        if self.state is Connected && read == Some(Seq::<u8>::empty()) {
            (
                ClientView {
                    state: ClientState::Disconnected,
                    outcomes: self.outcomes.push(ClientOutcome::Unbound),
                    ..self
                },
                Some(ClientActionView::Close),
            )
        } else {
            (self, None)
        }
    }
}

/// A connect intent that finds a connection, live or being made, is dropped:
/// the client goes on with the intents behind it as if it had not been
/// issued, and no socket is opened for it.
pub proof fn lemma_connect_is_dropped_unless_disconnected<P: Packet>(
    client: ClientView<P>,
    address: SocketAddress,
)
    requires
        !(client.state is Disconnected),
        client.intents.len() > 0,
        client.intents.first() == ClientIntent::<P>::Connect(address),
    ensures
        client.next() == (ClientView { intents: client.intents.drop_first(), ..client }).next(),
{
}

/// Two connect intents in succession make one connection. Issued to a
/// client that has no connection and no intents waiting, the first opens a
/// socket to its address; the second is dropped, whether it is taken before
/// or after the host has reported that the socket is open, and the
/// connection stays the one to the first address.
pub proof fn lemma_two_connects_open_one_connection<P: Packet>(
    client: ClientView<P>,
    first: SocketAddress,
    second: SocketAddress,
)
    requires
        client.state is Disconnected,
        client.intents.len() == 0,
    ensures
        ({
            let queued = client.enqueue(ClientIntent::Connect(first)).enqueue(
                ClientIntent::Connect(second),
            );
            let (opening, step) = queued.next();
            let (opened, report) = opening.complete(ClientCompletion::Opened);
            &&& step == Ok::<Option<ClientActionView>, TransportError>(
                Some(ClientActionView::Open(first)),
            )
            &&& opening.state == ClientState::Connecting(first)
            &&& opening.next().1 == Ok::<Option<ClientActionView>, TransportError>(None)
            &&& opening.next().0.state == ClientState::Connecting(first)
            &&& report == Ok::<(), TransportError>(())
            &&& opened.next().1 == Ok::<Option<ClientActionView>, TransportError>(None)
            &&& opened.next().0.state == ClientState::Connected(first)
            &&& opened.next().0.intents.len() == 0
            &&& opened.next().0.outcomes == client.outcomes
        }),
{
    reveal_with_fuel(ClientView::next, 3);
    let queued = client.enqueue(ClientIntent::Connect(first)).enqueue(
        ClientIntent::Connect(second),
    );
    assert(queued.intents.first() == ClientIntent::<P>::Connect(first));
    assert(queued.intents.drop_first() =~= seq![ClientIntent::<P>::Connect(second)]);
    let opening = queued.next().0;
    assert(opening.intents.first() == ClientIntent::<P>::Connect(second));
    assert(opening.intents.drop_first() =~= Seq::<ClientIntent<P>>::empty());
}

/// When the server closes a live connection, the next read queues exactly
/// one `Unbound` outcome, tells the host to close the socket and gives the
/// connection up. After that no read is asked for, and whatever a read
/// returns changes nothing.
pub proof fn lemma_end_of_stream_disconnects_once<P: Packet>(
    client: ClientView<P>,
    later: Option<Seq<u8>>,
)
    requires
        client.state is Connected,
    ensures
        ({
            let (closed, action) = client.read(Some(Seq::<u8>::empty()));
            &&& action == Some(ClientActionView::Close)
            &&& closed.state == ClientState::Disconnected
            &&& closed.outcomes == client.outcomes.push(ClientOutcome::Unbound)
            &&& closed.intents == client.intents
            &&& !closed.wants_read()
            &&& closed.read(later) == (closed, None::<ClientActionView>)
        }),
{
}

/// A send intent that finds a live connection asks the host to write exactly
/// the encoding of its packet, and leaves the connection as it is.
pub proof fn lemma_send_writes_encoding<P: Packet>(client: ClientView<P>, packet: P)
    requires
        client.state is Connected,
        client.intents.len() > 0,
        client.intents.first() == ClientIntent::Send(packet),
    ensures
        client.next() == (
            ClientView { intents: client.intents.drop_first(), ..client },
            Ok::<Option<ClientActionView>, TransportError>(
                Some(ClientActionView::Write(packet.encoding())),
            ),
        ),
{
}

/// The client side of the transport, for packets of type `P`.
pub struct Client<P: Packet> {
    state: ClientState,
    intents: VecDeque<ClientIntent<P>>,
    outcomes: Vec<ClientOutcome>,
}

impl<P: Packet> View for Client<P> {
    type V = ClientView<P>;

    closed spec fn view(&self) -> ClientView<P> {
        ClientView { state: self.state, intents: self.intents@, outcomes: self.outcomes@ }
    }
}

impl<P: Packet> Client<P> {
    /// A client with no connection, no intents and no outcomes.
    pub fn new() -> (client: Self)
        ensures
            client@ == ClientView::<P>::initial(),
    {
        Client { state: ClientState::Disconnected, intents: VecDeque::new(), outcomes: Vec::new() }
    }

    /// Where the connection stands.
    pub fn state(&self) -> (state: ClientState)
        ensures
            state == self@.state,
    {
        self.state
    }

    /// Queues the intent to connect to `socket_addr`.
    pub fn connect(&mut self, socket_addr: SocketAddress)
        ensures
            final(self)@ == old(self)@.enqueue(ClientIntent::Connect(socket_addr)),
    {
        self.intents.push_back(ClientIntent::Connect(socket_addr));
    }

    /// Queues the intent to close the connection.
    pub fn disconnect(&mut self)
        ensures
            final(self)@ == old(self)@.enqueue(ClientIntent::Disconnect),
    {
        self.intents.push_back(ClientIntent::Disconnect);
    }

    /// Queues the intent to send `packet`.
    pub fn send_packet(&mut self, packet: P)
        ensures
            final(self)@ == old(self)@.enqueue(ClientIntent::Send(packet)),
    {
        self.intents.push_back(ClientIntent::Send(packet));
    }

    /// Serves one intent: moves the state on and says what the host is to do.
    fn serve(&mut self, intent: ClientIntent<P>) -> (result: Result<
        Option<ClientAction>,
        TransportError,
    >)
        ensures
            final(self).state == intent_step(old(self).state, intent).0,
            step_view(result) == intent_step(old(self).state, intent).1,
            final(self).intents == old(self).intents,
            final(self).outcomes == old(self).outcomes,
    {
        match intent {
            ClientIntent::Connect(address) => match self.state {
                ClientState::Disconnected => {
                    self.state = ClientState::Connecting(address);
                    Ok(Some(ClientAction::Open(address)))
                },
                _ => Ok(None),
            },
            ClientIntent::Disconnect => match self.state {
                ClientState::Connected(_) => {
                    self.state = ClientState::Disconnected;
                    Ok(Some(ClientAction::Close))
                },
                _ => Err(TransportError::NotConnected),
            },
            ClientIntent::Send(packet) => match self.state {
                ClientState::Connected(_) => Ok(
                    Some(ClientAction::Write(packet.serialize_packet())),
                ),
                _ => Err(TransportError::NotConnected),
            },
        }
    }

    /// Takes the queued intents in order until one calls for a socket call or
    /// cannot be served, and returns that action or error. Intents that ask
    /// for what already holds are dropped on the way. `Ok(None)` means that
    /// the queue is empty.
    pub fn next_action(&mut self) -> (result: Result<Option<ClientAction>, TransportError>)
        ensures
            final(self)@ == old(self)@.next().0,
            step_view(result) == old(self)@.next().1,
    {
        let ghost start = self@;
        loop
            invariant
                start == old(self)@,
                self@.next() == start.next(),
            decreases self.intents@.len(),
        {
            let ghost before = self@;
            match self.intents.pop_front() {
                None => {
                    assert(self@ == before);
                    return Ok(None);
                },
                Some(intent) => {
                    let result = self.serve(intent);
                    assert(intent == before.intents.first());
                    assert(self@.intents == before.intents.drop_first());
                    match result {
                        Ok(None) => {},
                        _ => {
                            return result;
                        },
                    }
                },
            }
        }
    }

    /// Takes the host's report of how a socket call ended. A connection
    /// attempt that succeeded makes the connection live; one that failed is
    /// given up. Every failure is returned as the error that it amounts to.
    pub fn completed(&mut self, completion: ClientCompletion) -> (result: Result<
        (),
        TransportError,
    >)
        ensures
            final(self)@ == old(self)@.complete(completion).0,
            result == old(self)@.complete(completion).1,
    {
        match completion {
            ClientCompletion::Opened => {
                if let ClientState::Connecting(address) = self.state {
                    self.state = ClientState::Connected(address);
                }
                Ok(())
            },
            ClientCompletion::ConnectFailed => {
                self.abandon();
                Err(TransportError::ConnectFailed)
            },
            ClientCompletion::ModeFailed => {
                self.abandon();
                Err(TransportError::SocketModeFailed)
            },
            ClientCompletion::Written => Ok(()),
            ClientCompletion::WriteFailed => Err(TransportError::WriteFailed),
            ClientCompletion::Closed => Ok(()),
            ClientCompletion::ShutdownFailed => Err(TransportError::ShutdownFailed),
        }
    }

    /// Gives up a connection attempt, if one is under way.
    fn abandon(&mut self)
        ensures
            final(self).state == abandon_attempt(old(self).state),
            final(self).intents == old(self).intents,
            final(self).outcomes == old(self).outcomes,
    {
        if let ClientState::Connecting(_) = self.state {
            self.state = ClientState::Disconnected;
        }
    }

    /// Whether the host is to make a read this tick: exactly when a
    /// connection is live.
    pub fn wants_read(&self) -> (wanted: bool)
        ensures
            wanted == self@.wants_read(),
    {
        match self.state {
            ClientState::Connected(_) => true,
            _ => false,
        }
    }

    /// Takes the result of the tick's read. When a live connection returned
    /// no bytes, the server has closed it: the connection is given up, an
    /// `Unbound` outcome is queued and the host is told to close the socket.
    /// Bytes that did arrive are dropped, and so is a read that was not
    /// ready.
    pub fn read_completed(&mut self, read: &ReadResult) -> (action: Option<ClientAction>)
        ensures
            final(self)@ == old(self)@.read(read@).0,
            action is Some == old(self)@.read(read@).1 is Some,
            action matches Some(a) ==> Some(a@) == old(self)@.read(read@).1,
    {
        match (self.state, read) {
            (ClientState::Connected(_), ReadResult::Bytes(bytes)) => {
                if bytes.len() == 0 {
                    assert(bytes@ =~= Seq::<u8>::empty());
                    self.state = ClientState::Disconnected;
                    self.outcomes.push(ClientOutcome::Unbound);
                    Some(ClientAction::Close)
                } else {
                    None
                }
            },
            _ => None,
        }
    }

    /// Returns the outcomes queued since the last call, oldest first, and
    /// empties the queue.
    pub fn drain_outcomes(&mut self) -> (drained: Vec<ClientOutcome>)
        ensures
            drained@ == old(self)@.outcomes,
            final(self)@ == (ClientView { outcomes: Seq::empty(), ..old(self)@ }),
    {
        let mut drained = Vec::new();
        std::mem::swap(&mut drained, &mut self.outcomes);
        drained
    }
}

} // verus!
