use net::wire::WORD_LEN;
use net::{ClientPacket, Packet, BUF_SIZE, KEY_LEN, KEY_TAG, MOUSE_TAG};
use serde::ser::SerializeTupleVariant;

/// A stand-in with the shape of `ClientPacket`, serialized by the calls that
/// a derived `Serialize` makes for such an enum.
enum Shape {
    Key(u8, u8),
    Mouse,
}

impl serde::Serialize for Shape {
    fn serialize<S: serde::Serializer>(&self, serializer: S) -> Result<S::Ok, S::Error> {
        match self {
            Shape::Key(code, state) => {
                let mut variant = serializer.serialize_tuple_variant("ClientPacket", 0, "Key", 2)?;
                variant.serialize_field(code)?;
                variant.serialize_field(state)?;
                variant.end()
            }
            Shape::Mouse => serializer.serialize_unit_variant("ClientPacket", 1, "Mouse"),
        }
    }
}

#[test]
fn key_packet_encodes_to_tag_and_fields() {
    let bytes = ClientPacket::Key(65, 0).serialize_packet();
    assert_eq!(bytes, vec![0u8, 0, 0, 0, 65, 0]);
}

#[test]
fn mouse_packet_encodes_to_tag_alone() {
    let bytes = ClientPacket::Mouse.serialize_packet();
    assert_eq!(bytes, vec![1u8, 0, 0, 0]);
}

#[test]
fn constants_describe_the_format() {
    assert_eq!(KEY_TAG, 0);
    assert_eq!(MOUSE_TAG, 1);
    assert_eq!(WORD_LEN, 4);
    assert_eq!(KEY_LEN, 6);
    assert_eq!(BUF_SIZE, 1024);
    assert_eq!(ClientPacket::Key(1, 2).serialize_packet().len(), KEY_LEN);
    assert_eq!(ClientPacket::Mouse.serialize_packet().len(), WORD_LEN);
}

#[test]
fn encoding_matches_bincode_on_an_enum_of_the_same_shape() {
    for code in [0u8, 1, 65, 127, 128, 255] {
        for state in [0u8, 1, 200, 255] {
            let expected = bincode::serialize(&Shape::Key(code, state)).unwrap();
            assert_eq!(ClientPacket::Key(code, state).serialize_packet(), expected);
        }
    }
    let expected = bincode::serialize(&Shape::Mouse).unwrap();
    assert_eq!(ClientPacket::Mouse.serialize_packet(), expected);
}

#[test]
fn round_trip_gives_the_packet_back() {
    for code in 0u8..=255 {
        for state in [0u8, 1, 2, 77, 254, 255] {
            let packet = ClientPacket::Key(code, state);
            let bytes = packet.serialize_packet();
            assert_eq!(ClientPacket::try_deserialize_packet(&bytes), Some(packet));
            assert_eq!(ClientPacket::deserialize_packet(&bytes), packet);
        }
    }
    let bytes = ClientPacket::Mouse.serialize_packet();
    assert_eq!(ClientPacket::try_deserialize_packet(&bytes), Some(ClientPacket::Mouse));
    assert_eq!(ClientPacket::deserialize_packet(&bytes), ClientPacket::Mouse);
}

#[test]
fn decoding_reads_the_tag_least_significant_byte_first() {
    assert_eq!(
        ClientPacket::try_deserialize_packet(&[1, 0, 0, 0]),
        Some(ClientPacket::Mouse)
    );
    assert_eq!(ClientPacket::try_deserialize_packet(&[0, 0, 0, 1]), None);
    assert_eq!(ClientPacket::try_deserialize_packet(&[0, 1, 0, 0, 9, 9]), None);
    assert_eq!(ClientPacket::try_deserialize_packet(&[1, 0, 1, 0]), None);
}

#[test]
fn short_buffers_hold_no_packet() {
    assert_eq!(ClientPacket::try_deserialize_packet(&[]), None);
    assert_eq!(ClientPacket::try_deserialize_packet(&[0]), None);
    assert_eq!(ClientPacket::try_deserialize_packet(&[1, 0, 0]), None);
    assert_eq!(ClientPacket::try_deserialize_packet(&[0, 0, 0, 0]), None);
    assert_eq!(ClientPacket::try_deserialize_packet(&[0, 0, 0, 0, 65]), None);
}

#[test]
fn unknown_tags_hold_no_packet() {
    assert_eq!(ClientPacket::try_deserialize_packet(&[2, 0, 0, 0, 1, 2]), None);
    assert_eq!(ClientPacket::try_deserialize_packet(&[255, 255, 255, 255]), None);
}

#[test]
fn bytes_after_the_packet_are_ignored() {
    assert_eq!(
        ClientPacket::try_deserialize_packet(&[0, 0, 0, 0, 65, 1, 9, 9, 9]),
        Some(ClientPacket::Key(65, 1))
    );
    assert_eq!(
        ClientPacket::try_deserialize_packet(&[1, 0, 0, 0, 7]),
        Some(ClientPacket::Mouse)
    );
    assert_eq!(
        ClientPacket::deserialize_packet(&[0, 0, 0, 0, 3, 4, 5]),
        ClientPacket::Key(3, 4)
    );
}
