use bitcoin_message::command::CommandString;
use bitcoin_message::error::DecodeError;
use bitcoin_message::message::{NetworkMessage, RawNetworkMessage};

const MAGIC: u32 = 0xd9b4bef9;

/// The wire frame of an envelope, built field by field for tests that need
/// to corrupt one.
fn build_frame(magic: u32, tag: &[u8; 12], payload: &[u8]) -> Vec<u8> {
    let mut data = Vec::new();
    data.extend_from_slice(&magic.to_le_bytes());
    data.extend_from_slice(tag);
    let framed = bitcoin_message::frame::frame_payload(&payload.to_vec());
    data.extend_from_slice(&framed);
    data
}

#[test]
fn serialize_commandstring_test() {
    let cs = CommandString("Andrew".to_owned());
    assert_eq!(
        cs.consensus_encode(),
        vec![0x41u8, 0x6e, 0x64, 0x72, 0x65, 0x77, 0, 0, 0, 0, 0, 0]
    );
}

#[test]
fn deserialize_commandstring_test() {
    let cs = CommandString::consensus_decode(&vec![0x41u8, 0x6e, 0x64, 0x72, 0x65, 0x77, 0, 0, 0, 0, 0, 0]);
    assert!(cs.is_ok());
    assert_eq!(cs.unwrap(), CommandString("Andrew".to_owned()));

    let short_cs = CommandString::consensus_decode(&vec![0x41u8, 0x6e, 0x64, 0x72, 0x65, 0x77, 0, 0, 0, 0, 0]);
    assert!(short_cs.is_err());
}

#[test]
fn serialize_verack_test() {
    assert_eq!(
        RawNetworkMessage { magic: 0xd9b4bef9, payload: NetworkMessage::Verack }.consensus_encode(),
        vec![0xf9, 0xbe, 0xb4, 0xd9, 0x76, 0x65, 0x72, 0x61,
             0x63, 0x6B, 0x00, 0x00, 0x00, 0x00, 0x00, 0x00,
             0x00, 0x00, 0x00, 0x00, 0x5d, 0xf6, 0xe0, 0xe2]
    );
}

#[test]
fn serialize_ping_test() {
    assert_eq!(
        RawNetworkMessage { magic: 0xd9b4bef9, payload: NetworkMessage::Ping(100) }.consensus_encode(),
        vec![0xf9, 0xbe, 0xb4, 0xd9, 0x70, 0x69, 0x6e, 0x67,
             0x00, 0x00, 0x00, 0x00, 0x00, 0x00, 0x00, 0x00,
             0x08, 0x00, 0x00, 0x00, 0x24, 0x67, 0xf1, 0x1d,
             0x64, 0x00, 0x00, 0x00, 0x00, 0x00, 0x00, 0x00]
    );
}

#[test]
fn commandstring_round_trip() {
    let cs = CommandString("getheaders".to_owned());
    let tag = cs.consensus_encode();
    assert_eq!(tag.len(), 12);
    let back = CommandString::consensus_decode(&tag).unwrap();
    assert_eq!(back, cs);
}

#[test]
fn commandstring_stops_at_first_zero() {
    // Bytes after the first zero are ignored whatever they hold.
    let tag = vec![0x61u8, 0x62, 0x00, 0x63, 0x64, 0x65, 0x66, 0x67, 0x68, 0x69, 0x6a, 0x6b];
    let cs = CommandString::consensus_decode(&tag).unwrap();
    assert_eq!(cs, CommandString("ab".to_owned()));

    let all_zero = vec![0u8; 12];
    let cs = CommandString::consensus_decode(&all_zero).unwrap();
    assert_eq!(cs, CommandString(String::new()));
}

#[test]
fn message_round_trip_every_kind() {
    let body = vec![0x01u8, 0x02, 0x03];
    let kinds = vec![
        NetworkMessage::Version(body.clone()),
        NetworkMessage::Verack,
        NetworkMessage::Addr(body.clone()),
        NetworkMessage::Inv(body.clone()),
        NetworkMessage::GetData(body.clone()),
        NetworkMessage::NotFound(body.clone()),
        NetworkMessage::GetBlocks(body.clone()),
        NetworkMessage::GetHeaders(body.clone()),
        NetworkMessage::Tx(body.clone()),
        NetworkMessage::Block(body.clone()),
        NetworkMessage::Headers(body.clone()),
        NetworkMessage::Ping(0xdeadbeef),
        NetworkMessage::Pong(0xcafebabe),
    ];
    for payload in kinds {
        let encoded = RawNetworkMessage { magic: MAGIC, payload: payload.clone() }.consensus_encode();
        let decoded = RawNetworkMessage::consensus_decode(&encoded).unwrap();
        assert_eq!(decoded.magic, MAGIC);
        assert_eq!(decoded.payload, payload);
    }
}

#[test]
fn pong_decodes_to_pong() {
    // The dispatch table is the exact inverse of the name table: a frame
    // tagged "pong" yields Pong, a frame tagged "ping" yields Ping.
    let ping = RawNetworkMessage { magic: MAGIC, payload: NetworkMessage::Ping(7) }.consensus_encode();
    let pong = RawNetworkMessage { magic: MAGIC, payload: NetworkMessage::Pong(7) }.consensus_encode();
    assert_eq!(
        RawNetworkMessage::consensus_decode(&ping).unwrap().payload,
        NetworkMessage::Ping(7)
    );
    assert_eq!(
        RawNetworkMessage::consensus_decode(&pong).unwrap().payload,
        NetworkMessage::Pong(7)
    );
}

#[test]
fn decode_truncated_header() {
    // Shorter than magic + tag.
    for n in 0..16usize {
        let data = vec![0u8; n];
        assert!(matches!(
            RawNetworkMessage::consensus_decode(&data),
            Err(DecodeError::Truncated)
        ));
    }
}

#[test]
fn decode_truncated_payload() {
    let mut data = RawNetworkMessage { magic: MAGIC, payload: NetworkMessage::Ping(1) }.consensus_encode();
    // Drop the last payload byte: the frame announces more than remains.
    data.pop();
    assert!(matches!(
        RawNetworkMessage::consensus_decode(&data),
        Err(DecodeError::Truncated)
    ));
}

#[test]
fn decode_bad_checksum() {
    let mut data = RawNetworkMessage { magic: MAGIC, payload: NetworkMessage::Ping(1) }.consensus_encode();
    // The checksum field is bytes 20..24 of the frame.
    data[20] ^= 0xff;
    assert!(matches!(
        RawNetworkMessage::consensus_decode(&data),
        Err(DecodeError::BadChecksum)
    ));
}

#[test]
fn decode_unrecognized_command() {
    let tag = *b"bogus\0\0\0\0\0\0\0";
    let data = build_frame(MAGIC, &tag, &[]);
    match RawNetworkMessage::consensus_decode(&data) {
        Err(DecodeError::UnrecognizedCommand(name)) => assert_eq!(name, "bogus"),
        other => panic!("expected UnrecognizedCommand, got {:?}", other),
    }
}

#[test]
fn decode_short_ping_payload() {
    let tag = *b"ping\0\0\0\0\0\0\0\0";
    let data = build_frame(MAGIC, &tag, &[1, 2, 3]);
    match RawNetworkMessage::consensus_decode(&data) {
        Err(DecodeError::PayloadDecode { command, cause }) => {
            assert_eq!(command, "ping");
            assert!(matches!(*cause, DecodeError::Truncated));
        }
        other => panic!("expected PayloadDecode, got {:?}", other),
    }
}

#[test]
fn decode_long_ping_payload_ignores_tail() {
    // A ping payload longer than 8 bytes decodes from its first 8 bytes.
    let tag = *b"ping\0\0\0\0\0\0\0\0";
    let data = build_frame(MAGIC, &tag, &[9, 0, 0, 0, 0, 0, 0, 0, 0xaa, 0xbb]);
    assert_eq!(
        RawNetworkMessage::consensus_decode(&data).unwrap().payload,
        NetworkMessage::Ping(9)
    );
}

#[test]
fn decode_verack_ignores_payload_bytes() {
    // A verack frame with a nonempty (but well-checksummed) payload still
    // decodes to Verack.
    let tag = *b"verack\0\0\0\0\0\0";
    let data = build_frame(MAGIC, &tag, &[1, 2, 3]);
    assert_eq!(
        RawNetworkMessage::consensus_decode(&data).unwrap().payload,
        NetworkMessage::Verack
    );
}

#[test]
fn command_name_of_each_kind() {
    let named = vec![
        (NetworkMessage::Version(vec![]), "version"),
        (NetworkMessage::Verack, "verack"),
        (NetworkMessage::Addr(vec![]), "addr"),
        (NetworkMessage::Inv(vec![]), "inv"),
        (NetworkMessage::GetData(vec![]), "getdata"),
        (NetworkMessage::NotFound(vec![]), "notfound"),
        (NetworkMessage::GetBlocks(vec![]), "getblocks"),
        (NetworkMessage::GetHeaders(vec![]), "getheaders"),
        (NetworkMessage::Tx(vec![]), "tx"),
        (NetworkMessage::Block(vec![]), "block"),
        (NetworkMessage::Headers(vec![]), "headers"),
        (NetworkMessage::Ping(0), "ping"),
        (NetworkMessage::Pong(0), "pong"),
    ];
    for (payload, name) in named {
        assert_eq!(RawNetworkMessage { magic: MAGIC, payload }.command(), name);
    }
}

#[test]
fn decode_ignores_trailing_bytes() {
    let mut data = RawNetworkMessage { magic: MAGIC, payload: NetworkMessage::Verack }.consensus_encode();
    data.push(0x42);
    let decoded = RawNetworkMessage::consensus_decode(&data).unwrap();
    assert_eq!(decoded.magic, MAGIC);
    assert_eq!(decoded.payload, NetworkMessage::Verack);
}
