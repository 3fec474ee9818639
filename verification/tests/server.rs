use net::server::{Server, ServerAction, ServerCompletion, ServerOutcome, ServerState};
use net::socket::{window, ReadResult, TransportError};
use net::{ClientPacket, Packet, BUF_SIZE};

fn listening(port: u16) -> Server<ClientPacket> {
    let mut server = Server::new();
    server.bind(port);
    assert_eq!(server.next_action(), Some(ServerAction::Listen(port)));
    assert_eq!(server.completed(ServerCompletion::Bound), Ok(()));
    server
}

fn serving(port: u16) -> Server<ClientPacket> {
    let mut server = listening(port);
    assert_eq!(server.completed(ServerCompletion::Accepted), Ok(()));
    server
}

fn bytes_of(packet: ClientPacket) -> ReadResult {
    ReadResult::Bytes(packet.serialize_packet())
}

#[test]
fn new_server_is_unbound_and_idle() {
    let mut server: Server<ClientPacket> = Server::new();
    assert_eq!(server.state(), ServerState::Unbound);
    assert!(!server.wants_accept());
    assert!(!server.wants_read());
    assert_eq!(server.next_action(), None);
    assert!(server.received_packets().is_empty());
    assert!(server.drain_outcomes().is_empty());
}

#[test]
fn bind_listens_on_the_port_and_waits_for_the_host() {
    let mut server: Server<ClientPacket> = Server::new();
    server.bind(2560);
    assert_eq!(server.state(), ServerState::Unbound);
    assert_eq!(server.next_action(), Some(ServerAction::Listen(2560)));
    assert_eq!(server.state(), ServerState::Binding(2560));
    assert!(!server.wants_accept());
    assert_eq!(server.completed(ServerCompletion::Bound), Ok(()));
    assert_eq!(server.state(), ServerState::Listening(2560));
    assert!(server.wants_accept());
    assert!(!server.wants_read());
}

#[test]
fn second_bind_is_dropped_after_the_first_is_bound() {
    let mut server: Server<ClientPacket> = Server::new();
    server.bind(2560);
    server.bind(2561);
    assert_eq!(server.next_action(), Some(ServerAction::Listen(2560)));
    assert_eq!(server.completed(ServerCompletion::Bound), Ok(()));
    assert_eq!(server.next_action(), None);
    assert_eq!(server.state(), ServerState::Listening(2560));
}

#[test]
fn second_bind_is_dropped_while_the_first_is_being_bound() {
    let mut server: Server<ClientPacket> = Server::new();
    server.bind(2560);
    server.bind(2561);
    assert_eq!(server.next_action(), Some(ServerAction::Listen(2560)));
    assert_eq!(server.next_action(), None);
    assert_eq!(server.state(), ServerState::Binding(2560));
}

#[test]
fn failed_bind_gives_the_attempt_up() {
    let mut server: Server<ClientPacket> = Server::new();
    server.bind(80);
    assert_eq!(server.next_action(), Some(ServerAction::Listen(80)));
    assert_eq!(
        server.completed(ServerCompletion::BindFailed),
        Err(TransportError::BindFailed)
    );
    assert_eq!(server.state(), ServerState::Unbound);
    server.bind(81);
    assert_eq!(server.next_action(), Some(ServerAction::Listen(81)));
    assert_eq!(
        server.completed(ServerCompletion::ModeFailed),
        Err(TransportError::SocketModeFailed)
    );
    assert_eq!(server.state(), ServerState::Unbound);
}

#[test]
fn accept_makes_the_one_connection() {
    let mut server = listening(2560);
    assert_eq!(server.completed(ServerCompletion::NonePending), Ok(()));
    assert_eq!(server.state(), ServerState::Listening(2560));
    assert_eq!(server.completed(ServerCompletion::Accepted), Ok(()));
    assert_eq!(server.state(), ServerState::Serving(2560));
    assert!(!server.wants_accept());
    assert!(server.wants_read());
    assert_eq!(server.completed(ServerCompletion::Accepted), Ok(()));
    assert_eq!(server.state(), ServerState::Serving(2560));
}

#[test]
fn accepted_socket_that_cannot_change_mode_is_an_error() {
    let mut server = listening(2560);
    assert_eq!(
        server.completed(ServerCompletion::ModeFailed),
        Err(TransportError::SocketModeFailed)
    );
    assert_eq!(server.state(), ServerState::Listening(2560));
}

#[test]
fn unbind_without_a_client_is_dropped() {
    let mut server = listening(2560);
    server.unbind();
    assert_eq!(server.next_action(), None);
    assert_eq!(server.state(), ServerState::Listening(2560));
    let mut unbound: Server<ClientPacket> = Server::new();
    unbound.unbind();
    assert_eq!(unbound.next_action(), None);
    assert_eq!(unbound.state(), ServerState::Unbound);
}

#[test]
fn unbind_with_a_client_closes_connection_and_listener() {
    let mut server = serving(2560);
    server.unbind();
    assert_eq!(server.next_action(), Some(ServerAction::Shutdown));
    assert_eq!(server.state(), ServerState::Unbound);
    assert!(!server.wants_accept());
    assert!(!server.wants_read());
    assert_eq!(server.completed(ServerCompletion::Closed), Ok(()));
    assert_eq!(
        server.completed(ServerCompletion::ShutdownFailed),
        Err(TransportError::ShutdownFailed)
    );
    assert_eq!(server.state(), ServerState::Unbound);
    server.bind(2561);
    assert_eq!(server.next_action(), Some(ServerAction::Listen(2561)));
}

#[test]
fn received_bytes_become_one_packet() {
    let mut server = serving(2560);
    assert_eq!(server.read_completed(&bytes_of(ClientPacket::Key(65, 0))), Ok(None));
    assert_eq!(server.state(), ServerState::Serving(2560));
    assert_eq!(server.received_packets(), vec![ClientPacket::Key(65, 0)]);
    assert!(server.received_packets().is_empty());
}

#[test]
fn bytes_that_hold_no_packet_are_an_error_and_change_nothing() {
    let mut server = serving(2560);
    assert_eq!(
        server.read_completed(&ReadResult::Bytes(vec![9, 9, 9, 9])),
        Err(TransportError::DecodeFailed)
    );
    assert_eq!(
        server.read_completed(&ReadResult::Bytes(vec![0, 0])),
        Err(TransportError::DecodeFailed)
    );
    assert_eq!(server.state(), ServerState::Serving(2560));
    assert!(server.drain_outcomes().is_empty());
}

#[test]
fn read_that_is_not_ready_changes_nothing() {
    let mut server = serving(2560);
    assert_eq!(server.read_completed(&ReadResult::NotReady), Ok(None));
    assert_eq!(server.state(), ServerState::Serving(2560));
    assert!(server.drain_outcomes().is_empty());
}

#[test]
fn reads_without_a_connection_change_nothing() {
    let mut server = listening(2560);
    assert_eq!(server.read_completed(&bytes_of(ClientPacket::Mouse)), Ok(None));
    assert_eq!(server.read_completed(&ReadResult::Bytes(Vec::new())), Ok(None));
    assert_eq!(server.read_completed(&ReadResult::Bytes(vec![9])), Ok(None));
    assert_eq!(server.state(), ServerState::Listening(2560));
    assert!(server.drain_outcomes().is_empty());
}

#[test]
fn end_of_stream_disconnects_exactly_once_and_keeps_the_listener() {
    let mut server = serving(2560);
    assert_eq!(
        server.read_completed(&ReadResult::Bytes(Vec::new())),
        Ok(Some(ServerAction::Close))
    );
    assert_eq!(server.state(), ServerState::Listening(2560));
    assert!(server.wants_accept());
    assert!(!server.wants_read());
    assert_eq!(server.read_completed(&ReadResult::Bytes(Vec::new())), Ok(None));
    assert_eq!(server.read_completed(&ReadResult::NotReady), Ok(None));
    assert_eq!(server.drain_outcomes(), vec![ServerOutcome::Disconnected]);
    assert_eq!(server.completed(ServerCompletion::Accepted), Ok(()));
    assert_eq!(server.state(), ServerState::Serving(2560));
}

#[test]
fn packets_are_drained_in_the_order_of_arrival() {
    let mut server = serving(2560);
    let sent = [
        ClientPacket::Key(1, 1),
        ClientPacket::Mouse,
        ClientPacket::Key(1, 0),
        ClientPacket::Key(255, 255),
        ClientPacket::Mouse,
    ];
    for packet in sent {
        assert_eq!(server.read_completed(&bytes_of(packet)), Ok(None));
    }
    assert_eq!(server.received_packets(), sent.to_vec());
    assert!(server.received_packets().is_empty());
    assert_eq!(server.read_completed(&bytes_of(ClientPacket::Key(7, 7))), Ok(None));
    assert_eq!(server.received_packets(), vec![ClientPacket::Key(7, 7)]);
}

#[test]
fn draining_packets_leaves_the_other_outcomes_in_order() {
    let mut server = serving(2560);
    assert_eq!(server.read_completed(&bytes_of(ClientPacket::Key(1, 0))), Ok(None));
    assert_eq!(
        server.read_completed(&ReadResult::Bytes(Vec::new())),
        Ok(Some(ServerAction::Close))
    );
    assert_eq!(server.completed(ServerCompletion::Accepted), Ok(()));
    assert_eq!(server.read_completed(&bytes_of(ClientPacket::Key(2, 0))), Ok(None));
    assert_eq!(
        server.read_completed(&ReadResult::Bytes(Vec::new())),
        Ok(Some(ServerAction::Close))
    );
    assert_eq!(
        server.received_packets(),
        vec![ClientPacket::Key(1, 0), ClientPacket::Key(2, 0)]
    );
    assert_eq!(
        server.drain_outcomes(),
        vec![ServerOutcome::Disconnected, ServerOutcome::Disconnected]
    );
    assert!(server.drain_outcomes().is_empty());
}

#[test]
fn all_outcomes_are_drained_in_the_order_of_arrival() {
    let mut server = serving(2560);
    assert_eq!(server.read_completed(&bytes_of(ClientPacket::Mouse)), Ok(None));
    assert_eq!(
        server.read_completed(&ReadResult::Bytes(Vec::new())),
        Ok(Some(ServerAction::Close))
    );
    assert_eq!(
        server.drain_outcomes(),
        vec![ServerOutcome::Received(ClientPacket::Mouse), ServerOutcome::Disconnected]
    );
    assert!(server.received_packets().is_empty());
}

#[test]
fn window_cuts_a_read_down_to_the_buffer() {
    let long = vec![7u8; BUF_SIZE + 300];
    assert_eq!(window(&long).len(), BUF_SIZE);
    assert_eq!(window(&long), &long[..BUF_SIZE]);
    let exact = vec![1u8; BUF_SIZE];
    assert_eq!(window(&exact), &exact[..]);
    let short = [1u8, 2, 3];
    assert_eq!(window(&short), &short[..]);
    assert_eq!(window(&[]).len(), 0);
}

#[test]
fn bytes_beyond_the_buffer_are_not_looked_at() {
    let mut server = serving(2560);
    let mut bytes = ClientPacket::Key(65, 1).serialize_packet();
    bytes.resize(BUF_SIZE + 50, 0xee);
    assert_eq!(server.read_completed(&ReadResult::Bytes(bytes)), Ok(None));
    assert_eq!(server.received_packets(), vec![ClientPacket::Key(65, 1)]);
}

#[test]
fn every_failure_has_its_message() {
    assert_eq!(TransportError::ConnectFailed.message(), "Failed to connect.");
    assert_eq!(TransportError::BindFailed.message(), "Failed to bind to specified port.");
    assert_eq!(TransportError::ShutdownFailed.message(), "Failed to shutdown connection.");
    assert_eq!(TransportError::WriteFailed.message(), "Failed to send packet.");
    assert_eq!(TransportError::DecodeFailed.message(), "Failed to deserialize packet.");
    assert_eq!(
        TransportError::SocketModeFailed.message(),
        "Failed to switch socket to non-blocking mode."
    );
    assert_eq!(TransportError::NotConnected.message(), "No connection exists.");
}
