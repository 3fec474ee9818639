use net::client::{Client, ClientAction, ClientCompletion, ClientState};
use net::server::{Server, ServerAction, ServerCompletion, ServerOutcome, ServerState};
use net::socket::{ReadResult, SocketAddress};
use net::ClientPacket;

/// What the server side of a loopback connection reads next: the bytes that
/// the client wrote, nothing yet, or no bytes once the client has closed.
struct Loopback {
    written: Vec<Vec<u8>>,
    closed: bool,
}

impl Loopback {
    fn read(&mut self) -> ReadResult {
        if !self.written.is_empty() {
            ReadResult::Bytes(self.written.remove(0))
        } else if self.closed {
            ReadResult::Bytes(Vec::new())
        } else {
            ReadResult::NotReady
        }
    }
}

fn client_tick(client: &mut Client<ClientPacket>, wire: &mut Loopback) {
    loop {
        match client.next_action() {
            Ok(None) => break,
            Ok(Some(ClientAction::Open(_))) => {
                assert_eq!(client.completed(ClientCompletion::Opened), Ok(()));
            }
            Ok(Some(ClientAction::Write(bytes))) => {
                wire.written.push(bytes);
                assert_eq!(client.completed(ClientCompletion::Written), Ok(()));
            }
            Ok(Some(ClientAction::Close)) => {
                wire.closed = true;
                assert_eq!(client.completed(ClientCompletion::Closed), Ok(()));
            }
            Err(error) => panic!("{}", error.message()),
        }
    }
}

#[test]
fn end_to_end_scenario() {
    let port = 2560;
    let mut wire = Loopback { written: Vec::new(), closed: false };

    let mut server: Server<ClientPacket> = Server::new();
    server.bind(port);
    assert_eq!(server.next_action(), Some(ServerAction::Listen(port)));
    assert_eq!(server.completed(ServerCompletion::Bound), Ok(()));
    assert_eq!(server.next_action(), None);
    assert_eq!(server.state(), ServerState::Listening(port));

    let mut client: Client<ClientPacket> = Client::new();
    client.connect(SocketAddress::V4 { ipv4: 0x7f00_0001, port });
    client_tick(&mut client, &mut wire);
    assert_eq!(
        client.state(),
        ClientState::Connected(SocketAddress::V4 { ipv4: 0x7f00_0001, port })
    );

    assert!(server.wants_accept());
    assert_eq!(server.completed(ServerCompletion::Accepted), Ok(()));
    assert_eq!(server.state(), ServerState::Serving(port));
    assert!(server.wants_read());
    assert_eq!(server.read_completed(&wire.read()), Ok(None));
    assert!(server.received_packets().is_empty());

    client.send_packet(ClientPacket::Key(65, 0));
    client_tick(&mut client, &mut wire);
    assert_eq!(wire.written, vec![vec![0u8, 0, 0, 0, 65, 0]]);

    assert_eq!(server.read_completed(&wire.read()), Ok(None));
    assert_eq!(server.received_packets(), vec![ClientPacket::Key(65, 0)]);

    client.disconnect();
    client_tick(&mut client, &mut wire);
    assert_eq!(client.state(), ClientState::Disconnected);

    assert!(server.wants_read());
    assert_eq!(server.read_completed(&wire.read()), Ok(Some(ServerAction::Close)));
    assert_eq!(server.completed(ServerCompletion::Closed), Ok(()));
    assert_eq!(server.drain_outcomes(), vec![ServerOutcome::Disconnected]);
    assert_eq!(server.state(), ServerState::Listening(port));
    assert!(!server.wants_read());
    assert!(server.wants_accept());

    assert_eq!(server.completed(ServerCompletion::Accepted), Ok(()));
    assert_eq!(server.state(), ServerState::Serving(port));
}
