//! A transport core for one TCP connection between a client and a server.
//!
//! The library decides; the host performs. Each side is a state machine that
//! takes the application's intents and the results of the host's socket calls,
//! and answers with the next socket call to make and with outcomes for the
//! application. No function here touches a socket.

use vstd::prelude::*;

pub mod client;
pub mod server;
pub mod socket;
pub mod wire;

verus! {

/// Capacity of the buffer that one read fills.
pub const BUF_SIZE: usize = 1024;

/// A value that travels as one message.
///
/// An implementation fixes the wire format of its type by the two spec
/// functions, proves that decoding undoes encoding, and supplies executable
/// functions that compute exactly what the spec functions say.
pub trait Packet: Copy + Send + Sync + 'static {
    /// The bytes that stand for the packet on the wire.
    spec fn encoding(&self) -> Seq<u8>;

    /// The packet that a buffer stands for, if it stands for one.
    spec fn decoding(buffer: Seq<u8>) -> Option<Self>;

    /// Decoding the encoding of a packet gives the packet back.
    proof fn round_trip(&self)
        ensures
            Self::decoding(self.encoding()) == Some(*self),
    ;

    /// Encodes the packet. Never fails.
    fn serialize_packet(&self) -> (bytes: Vec<u8>)
        ensures
            bytes@ == self.encoding(),
    ;

    /// Decodes a buffer that is known to hold a packet.
    fn deserialize_packet(buffer: &[u8]) -> (packet: Self)
        requires
            Self::decoding(buffer@) is Some,
        ensures
            Self::decoding(buffer@) == Some(packet),
    ;

    /// Decodes a buffer of any content: `None` when it holds no packet.
    fn try_deserialize_packet(buffer: &[u8]) -> (packet: Option<Self>)
        ensures
            packet == Self::decoding(buffer@),
    ;
}

/// What a client tells the server.
#[derive(Clone, Copy, Debug, PartialEq, Eq, Structural)]
pub enum ClientPacket {
    /// A key event: the key's code, then its state.
    Key(u8, u8),
    /// A mouse event.
    Mouse,
}

/// The word that opens the encoding of `ClientPacket::Key`.
pub const KEY_TAG: u32 = 0;

/// The word that opens the encoding of `ClientPacket::Mouse`.
pub const MOUSE_TAG: u32 = 1;

/// Length of an encoded `ClientPacket::Key`: the tag and two bytes.
pub const KEY_LEN: usize = 6;

impl Packet for ClientPacket {
    /// The variant's tag as a word, then the variant's fields in order.
    open spec fn encoding(&self) -> Seq<u8> {
        match *self {
            ClientPacket::Key(code, state) => wire::word_bytes(KEY_TAG) + seq![code, state],
            ClientPacket::Mouse => wire::word_bytes(MOUSE_TAG),
        }
    }

    /// Reads the tag, then as many bytes as the variant has fields. Bytes
    /// after those are ignored; a short buffer or an unknown tag holds no
    /// packet.
    open spec fn decoding(buffer: Seq<u8>) -> Option<Self> {
        if buffer.len() < wire::WORD_LEN {
            None
        } else if wire::word_value(buffer) == KEY_TAG {
            if buffer.len() < KEY_LEN {
                None
            } else {
                Some(ClientPacket::Key(buffer[4], buffer[5]))
            }
        } else if wire::word_value(buffer) == MOUSE_TAG {
            Some(ClientPacket::Mouse)
        } else {
            None
        }
    }

    proof fn round_trip(&self) {
        match *self {
            ClientPacket::Key(code, state) => {
                wire::lemma_word_round_trip(KEY_TAG, seq![code, state]);
            },
            ClientPacket::Mouse => {
                wire::lemma_word_round_trip(MOUSE_TAG, Seq::empty());
                assert(wire::word_bytes(MOUSE_TAG) + Seq::<u8>::empty() =~= wire::word_bytes(
                    MOUSE_TAG,
                ));
            },
        }
    }

    fn serialize_packet(&self) -> (bytes: Vec<u8>) {
        match *self {
            ClientPacket::Key(code, state) => {
                let mut bytes = match wire::serialize_word(KEY_TAG) {
                    Ok(word) => word,
                    Err(_) => vstd::pervasive::unreached(),
                };
                bytes.push(code);
                bytes.push(state);
                assert(bytes@ =~= wire::word_bytes(KEY_TAG) + seq![code, state]);
                bytes
            },
            ClientPacket::Mouse => {
                match wire::serialize_word(MOUSE_TAG) {
                    Ok(word) => word,
                    Err(_) => vstd::pervasive::unreached(),
                }
            },
        }
    }

    fn deserialize_packet(buffer: &[u8]) -> (packet: Self) {
        match Self::try_deserialize_packet(buffer) {
            Some(packet) => packet,
            None => vstd::pervasive::unreached(),
        }
    }

    fn try_deserialize_packet(buffer: &[u8]) -> (packet: Option<Self>) {
        match wire::deserialize_word(buffer) {
            Err(_) => None,
            Ok(tag) => {
                if tag == KEY_TAG {
                    if buffer.len() < KEY_LEN {
                        None
                    } else {
                        Some(ClientPacket::Key(buffer[4], buffer[5]))
                    }
                } else if tag == MOUSE_TAG {
                    Some(ClientPacket::Mouse)
                } else {
                    None
                }
            },
        }
    }
}

/// Every encoding of a `ClientPacket` holds at least the tag and fits the
/// read buffer, so one read can carry it whole.
pub proof fn lemma_client_packet_fits(packet: ClientPacket)
    ensures
        wire::WORD_LEN <= packet.encoding().len() <= KEY_LEN,
        0 < packet.encoding().len() <= BUF_SIZE,
{
}

/// What a connected client sends, a serving server receives. The send
/// intent asks the host to write the encoding of the packet; when those
/// bytes reach the server in one read, the server queues exactly that packet
/// as received, keeps its connection and asks for nothing else. This holds
/// of every packet whose encoding is not empty and fits the read buffer.
pub proof fn lemma_sent_packet_is_received<P: Packet>(
    client: client::ClientView<P>,
    server: server::ServerView<P>,
    packet: P,
)
    requires
        client.state is Connected,
        client.intents.len() > 0,
        client.intents.first() == client::ClientIntent::Send(packet),
        server.state is Serving,
        0 < packet.encoding().len() <= BUF_SIZE,
    ensures
        client.next().1 == Ok::<Option<client::ClientActionView>, socket::TransportError>(
            Some(client::ClientActionView::Write(packet.encoding())),
        ),
        client.next().0.state == client.state,
        server.read(Some(packet.encoding())) == (
            server::ServerView {
                outcomes: server.outcomes.push(server::ServerOutcome::Received(packet)),
                ..server
            },
            Ok::<Option<server::ServerAction>, socket::TransportError>(None),
        ),
{
    client::lemma_send_writes_encoding(client, packet);
    server::lemma_encoding_is_received(server, packet);
}

} // verus!
