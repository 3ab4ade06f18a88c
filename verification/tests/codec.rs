use bitcoin_handshake::address::{IpAddress, SocketAddress};
use bitcoin_handshake::checksum::build_checksum;
use bitcoin_handshake::message_type::MessageType;
use bitcoin_handshake::padding::{pad_name, strip_trailing_zeros};
use bitcoin_handshake::verack::VerAck;
use bitcoin_handshake::version::{Version, VersionBuilder, VersionBuilderError};
use bitcoin_handshake::{Message, Payload, SerdeBitcoin, SerdeBitcoinError};

fn v4(a: u8, b: u8, c: u8, d: u8, port: u16) -> SocketAddress {
    SocketAddress::new(IpAddress::v4(a, b, c, d), port)
}

/// Reads `a.b.c.d:port`.
fn addr(text: &str) -> SocketAddress {
    let (ip, port) = text.split_once(':').unwrap();
    let octets: Vec<u8> = ip.split('.').map(|octet| octet.parse().unwrap()).collect();
    assert_eq!(octets.len(), 4);
    v4(octets[0], octets[1], octets[2], octets[3], port.parse().unwrap())
}

fn sample_version() -> Version {
    VersionBuilder::default()
        .protocol_version(70015)
        .services(0x0409)
        .timestamp(-2)
        .receiver_services(1)
        .receiver_address(v4(192, 0, 2, 1, 8333))
        .sender_services(0x0102_0304_0506_0708)
        .sender_address(SocketAddress::new(
            IpAddress::V6(0x2001_0db8_0000_0000_0000_0000_0000_0001),
            18333,
        ))
        .nonce(0x1122_3344_5566_7788)
        .user_agent("/a:1/".to_string())
        .start_height(-1)
        .relay(true)
        .build()
        .unwrap()
}

const ALL_TYPES: [MessageType; 17] = [
    MessageType::Version,
    MessageType::VerAck,
    MessageType::Ping,
    MessageType::Addr,
    MessageType::GetData,
    MessageType::Tx,
    MessageType::Block,
    MessageType::GetBlocks,
    MessageType::GetHeaders,
    MessageType::Headers,
    MessageType::Reject,
    MessageType::MemPool,
    MessageType::FeeFilter,
    MessageType::SendHeaders,
    MessageType::SendCmpct,
    MessageType::WtxIdRelay,
    MessageType::SendAddrV2,
];

#[test]
fn lib_test_version() {
    let version = VersionBuilder::default()
        .receiver_address(addr("127.0.0.1:18333"))
        .sender_address(addr("127.0.0.1:18334"))
        .build()
        .unwrap();

    let message = Message::build(Payload::Version(version), MessageType::Version, true);

    let mut serialized_bytes = message.serialize().expect("serialize");

    let deserialized: Message =
        Message::deserialize(&mut serialized_bytes.as_mut_slice()).expect("deserialize");

    assert_eq!(deserialized, message);
}

#[test]
fn test_verack() {
    let verack = VerAck;

    let message = Message::build(Payload::VerAck(verack), MessageType::VerAck, true);

    let mut serialized_bytes = message.serialize().expect("serialize");

    let deserialized: Message =
        Message::deserialize(&mut serialized_bytes.as_mut_slice()).expect("deserialize");

    assert_eq!(deserialized, message);
}

#[test]
fn test_message_type_version() {
    let message_type = MessageType::Version;

    let mut serialized_bytes = message_type.serialize().expect("serialize");

    let expected = "version\0\0\0\0\0";

    let expected_bytes = expected.as_bytes();

    assert_eq!(serialized_bytes.len(), MessageType::SIZE);

    assert_eq!(serialized_bytes, expected_bytes);

    let deserialized: MessageType =
        MessageType::deserialize(&mut serialized_bytes.as_mut_slice()).expect("deserialize");

    assert_eq!(deserialized, message_type);
}

#[test]
fn verack_test_version() {
    let version = VerAck;

    let mut serialized_bytes = version.serialize().expect("serialize");

    let deserialized: VerAck =
        VerAck::deserialize(&mut serialized_bytes.as_mut_slice()).expect("deserialize");

    assert_eq!(deserialized, version);
}

#[test]
fn version_test_version() {
    let version = VersionBuilder::default()
        .receiver_address(addr("127.0.0.1:18333"))
        .sender_address(addr("127.0.0.1:18334"))
        .build()
        .unwrap();

    let mut serialized_bytes = version.serialize().expect("serialize");

    assert_eq!(serialized_bytes.len(), Version::SIZE);

    let deserialized: Version =
        Version::deserialize(&mut serialized_bytes.as_mut_slice()).expect("deserialize");

    assert_eq!(deserialized, version);
}

#[test]
fn verack_has_no_bytes_and_ignores_input() {
    assert_eq!(VerAck.serialize().unwrap(), Vec::<u8>::new());
    let mut noise = vec![1u8, 2, 3, 0xff];
    assert_eq!(VerAck::deserialize(&mut noise).unwrap(), VerAck);
    assert_eq!(noise, vec![1u8, 2, 3, 0xff]);
}

#[test]
fn version_bytes_are_exact() {
    let bytes = sample_version().serialize().unwrap();
    let mut expected: Vec<u8> = Vec::new();
    expected.extend_from_slice(&[0x7f, 0x11, 0x01, 0x00]);
    expected.extend_from_slice(&[0x09, 0x04, 0, 0, 0, 0, 0, 0]);
    expected.extend_from_slice(&[0xfe, 0xff, 0xff, 0xff, 0xff, 0xff, 0xff, 0xff]);
    expected.extend_from_slice(&[0x01, 0, 0, 0, 0, 0, 0, 0]);
    expected.extend_from_slice(&[0, 0, 0, 0, 0, 0, 0, 0, 0, 0, 0xff, 0xff, 0xc0, 0x00, 0x02, 0x01]);
    expected.extend_from_slice(&[0x20, 0x8d]);
    expected.extend_from_slice(&[0x08, 0x07, 0x06, 0x05, 0x04, 0x03, 0x02, 0x01]);
    expected.extend_from_slice(&[0x20, 0x01, 0x0d, 0xb8, 0, 0, 0, 0, 0, 0, 0, 0, 0, 0, 0, 0x01]);
    expected.extend_from_slice(&[0x47, 0x9d]);
    expected.extend_from_slice(&[0x88, 0x77, 0x66, 0x55, 0x44, 0x33, 0x22, 0x11]);
    expected.push(5);
    expected.extend_from_slice(b"/a:1/");
    expected.extend_from_slice(&[0xff, 0xff, 0xff, 0xff]);
    expected.push(1);
    assert_eq!(bytes, expected);
    assert_eq!(bytes.len(), 86 + 5);
}

#[test]
fn version_comes_back_field_by_field() {
    let version = sample_version();
    let mut bytes = version.serialize().unwrap();
    let back = Version::deserialize(&mut bytes).unwrap();
    assert_eq!(back, version);
    assert_eq!(*back.protocol_version(), 70015);
    assert_eq!(*back.services(), 0x0409);
    assert_eq!(*back.timestamp(), -2);
    assert_eq!(*back.receiver_services(), 1);
    assert_eq!(*back.receiver_address(), v4(192, 0, 2, 1, 8333));
    assert_eq!(*back.sender_services(), 0x0102_0304_0506_0708);
    assert_eq!(
        *back.sender_address(),
        SocketAddress::new(IpAddress::V6(0x2001_0db8_0000_0000_0000_0000_0000_0001), 18333)
    );
    assert_eq!(*back.nonce(), 0x1122_3344_5566_7788);
    assert_eq!(back.user_agent(), "/a:1/");
    assert_eq!(*back.start_height(), -1);
    assert_eq!(*back.relay(), true);
}

#[test]
fn version_ignores_bytes_after_the_relay_flag() {
    let version = sample_version();
    let mut bytes = version.serialize().unwrap();
    bytes.extend_from_slice(&[9, 9, 9]);
    assert_eq!(Version::deserialize(&mut bytes).unwrap(), version);
}

#[test]
fn relay_flag_is_true_for_any_nonzero_byte() {
    let mut bytes = sample_version().serialize().unwrap();
    let last = bytes.len() - 1;
    bytes[last] = 0x80;
    assert_eq!(*Version::deserialize(&mut bytes).unwrap().relay(), true);
    bytes[last] = 0;
    assert_eq!(*Version::deserialize(&mut bytes).unwrap().relay(), false);
}

#[test]
fn user_agent_of_0_and_of_255_bytes_comes_back() {
    for len in [0usize, 1, 255] {
        let version = VersionBuilder::default()
            .receiver_address(v4(10, 0, 0, 1, 1))
            .sender_address(v4(10, 0, 0, 2, 2))
            .user_agent("x".repeat(len))
            .build()
            .unwrap();
        let mut bytes = version.serialize().unwrap();
        assert_eq!(bytes.len(), 86 + len);
        assert_eq!(bytes[80] as usize, len);
        assert_eq!(Version::deserialize(&mut bytes).unwrap(), version);
    }
}

#[test]
fn user_agent_of_many_byte_characters_comes_back() {
    let version = VersionBuilder::default()
        .receiver_address(v4(10, 0, 0, 1, 1))
        .sender_address(v4(10, 0, 0, 2, 2))
        .user_agent("né€𝄞".to_string())
        .build()
        .unwrap();
    let mut bytes = version.serialize().unwrap();
    assert_eq!(bytes[80], 1 + 2 + 3 + 4);
    assert_eq!(Version::deserialize(&mut bytes).unwrap(), version);
}

#[test]
fn user_agent_of_256_bytes_is_refused() {
    let version = VersionBuilder::default()
        .receiver_address(v4(10, 0, 0, 1, 1))
        .sender_address(v4(10, 0, 0, 2, 2))
        .user_agent("x".repeat(256))
        .build()
        .unwrap();
    assert!(matches!(
        version.serialize(),
        Err(SerdeBitcoinError::InvalidUserAgentLength)
    ));
    let message = Message::build(Payload::Version(version), MessageType::Version, false);
    assert!(matches!(
        message.serialize(),
        Err(SerdeBitcoinError::InvalidUserAgentLength)
    ));
}

#[test]
fn truncated_version_is_an_io_error() {
    let full = sample_version().serialize().unwrap();
    for len in 0..full.len() {
        let mut cut = full[..len].to_vec();
        assert!(
            matches!(Version::deserialize(&mut cut), Err(SerdeBitcoinError::IoError)),
            "length {}",
            len
        );
    }
}

#[test]
fn user_agent_that_is_not_utf8_is_refused() {
    let mut bytes = sample_version().serialize().unwrap();
    bytes[81] = 0xff;
    assert!(matches!(
        Version::deserialize(&mut bytes),
        Err(SerdeBitcoinError::FailedToParseUserAgent)
    ));
    // The user agent is judged before the tail is read.
    let mut cut = bytes[..86].to_vec();
    assert!(matches!(
        Version::deserialize(&mut cut),
        Err(SerdeBitcoinError::FailedToParseUserAgent)
    ));
}

#[test]
fn ipv4_is_written_in_its_mapped_form() {
    let ip = IpAddress::v4(192, 0, 2, 1);
    assert_eq!(ip, IpAddress::V4(0xC000_0201));
    assert_eq!(ip.to_wire_bits(), 0x0000_0000_0000_0000_0000_FFFF_C000_0201);
    let mut out = Vec::new();
    SocketAddress::new(ip, 0x1234).write_to(&mut out);
    assert_eq!(
        out,
        vec![0, 0, 0, 0, 0, 0, 0, 0, 0, 0, 0xff, 0xff, 0xc0, 0x00, 0x02, 0x01, 0x12, 0x34]
    );
    assert_eq!(SocketAddress::read_from(&out), Some(SocketAddress::new(ip, 0x1234)));
    assert_eq!(SocketAddress::read_from(&out[..17]), None);
    assert_eq!(IpAddress::from_wire_bits(0xFFFF_C000_0201), ip);
}

#[test]
fn native_ipv6_comes_back_unchanged() {
    let ip = IpAddress::V6(0x2001_0db8_85a3_0000_0000_8a2e_0370_7334);
    assert_eq!(ip.to_wire_bits(), 0x2001_0db8_85a3_0000_0000_8a2e_0370_7334);
    let mut out = vec![7u8];
    SocketAddress::new(ip, 8333).write_to(&mut out);
    assert_eq!(out.len(), 19);
    assert_eq!(out[0], 7);
    assert_eq!(&out[1..5], &[0x20, 0x01, 0x0d, 0xb8]);
    assert_eq!(SocketAddress::read_from(&out[1..]), Some(SocketAddress::new(ip, 8333)));
    // One bit away from the mapped form is still IPv6.
    let near = 0x0001_0000_FFFF_C000_0201u128;
    assert_eq!(IpAddress::from_wire_bits(near), IpAddress::V6(near));
}

#[test]
fn ipv6_of_the_mapped_form_is_read_as_ipv4() {
    let mapped = IpAddress::V6(0xFFFF_0102_0304);
    let mut out = Vec::new();
    SocketAddress::new(mapped, 1).write_to(&mut out);
    assert_eq!(
        SocketAddress::read_from(&out),
        Some(SocketAddress::new(IpAddress::v4(1, 2, 3, 4), 1))
    );
}

#[test]
fn every_command_name_comes_back() {
    for ty in ALL_TYPES {
        let mut field = ty.serialize().unwrap();
        assert_eq!(field.len(), 12);
        let name = ty.to_string();
        assert_eq!(ty.as_str(), name);
        assert_eq!(&field[..name.len()], name.as_bytes());
        assert!(field[name.len()..].iter().all(|b| *b == 0));
        assert_eq!(MessageType::deserialize(&mut field).unwrap(), ty);
        assert_eq!(MessageType::from_name(name.as_bytes()), Some(ty));
    }
    assert_eq!(MessageType::SendHeaders.to_string(), "sendheaders");
    assert_eq!(MessageType::WtxIdRelay.to_string(), "wtxidrelay");
}

#[test]
fn command_is_read_from_a_short_field_too() {
    let mut short = b"tx".to_vec();
    assert_eq!(MessageType::deserialize(&mut short).unwrap(), MessageType::Tx);
    let mut padded = b"tx\0".to_vec();
    assert_eq!(MessageType::deserialize(&mut padded).unwrap(), MessageType::Tx);
}

#[test]
fn name_of_more_than_twelve_bytes_is_refused() {
    assert!(matches!(
        pad_name(b"thirteenbytes", MessageType::SIZE),
        Err(SerdeBitcoinError::MessageTypeTooLong(13))
    ));
    assert_eq!(pad_name(b"twelve_bytes", 12).unwrap(), b"twelve_bytes".to_vec());
    assert_eq!(pad_name(b"", 3).unwrap(), vec![0u8, 0, 0]);
    let mut long = b"version\0\0\0\0\0\0".to_vec();
    assert!(matches!(
        MessageType::deserialize(&mut long),
        Err(SerdeBitcoinError::MessageTypeTooLong(13))
    ));
}

#[test]
fn trailing_zeros_are_stripped_and_inner_ones_kept() {
    assert_eq!(strip_trailing_zeros(b"ab\0\0"), b"ab");
    assert_eq!(strip_trailing_zeros(b"a\0b\0"), b"a\0b");
    assert_eq!(strip_trailing_zeros(b"\0\0"), b"");
    assert_eq!(strip_trailing_zeros(b""), b"");
}

#[test]
fn unknown_command_carries_its_text() {
    let mut field = b"bogus\0\0\0\0\0\0\0".to_vec();
    match MessageType::deserialize(&mut field) {
        Err(SerdeBitcoinError::UnknownType(name)) => assert_eq!(name, "bogus"),
        other => panic!("{:?}", other),
    }
    let mut empty = vec![0u8; 12];
    match MessageType::deserialize(&mut empty) {
        Err(SerdeBitcoinError::UnknownType(name)) => assert_eq!(name, ""),
        other => panic!("{:?}", other),
    }
    let mut upper = b"VERSION\0\0\0\0\0".to_vec();
    assert!(matches!(
        MessageType::deserialize(&mut upper),
        Err(SerdeBitcoinError::UnknownType(_))
    ));
}

#[test]
fn command_that_is_not_utf8_is_unknown_and_lossy() {
    let mut field = vec![b'p', 0xff, b'g', 0, 0, 0, 0, 0, 0, 0, 0, 0];
    match MessageType::deserialize(&mut field) {
        Err(SerdeBitcoinError::UnknownType(name)) => assert_eq!(name, "p\u{fffd}g"),
        other => panic!("{:?}", other),
    }
}

#[test]
fn checksum_of_nothing_is_the_known_one() {
    assert_eq!(build_checksum(&[]), [0x5d, 0xf6, 0xe0, 0xe2]);
    assert_eq!(build_checksum(b"hello"), [0x95, 0x95, 0xc9, 0xdf]);
}

#[test]
fn verack_message_bytes_are_exact() {
    let main = Message::build(Payload::VerAck(VerAck), MessageType::VerAck, false)
        .serialize()
        .unwrap();
    let expected: Vec<u8> = vec![
        0xf9, 0xbe, 0xb4, 0xd9, b'v', b'e', b'r', b'a', b'c', b'k', 0, 0, 0, 0, 0, 0, 0, 0, 0, 0,
        0x5d, 0xf6, 0xe0, 0xe2,
    ];
    assert_eq!(main, expected);
    let test = Message::build(Payload::VerAck(VerAck), MessageType::VerAck, true)
        .serialize()
        .unwrap();
    assert_eq!(&test[..4], &[0x0b, 0x11, 0x09, 0x07]);
    assert_eq!(&test[4..], &expected[4..]);
}

#[test]
fn version_message_is_framed() {
    let version = sample_version();
    let payload = version.serialize().unwrap();
    let message = Message::build(Payload::Version(version), MessageType::Version, true);
    let bytes = message.serialize().unwrap();
    assert_eq!(&bytes[..4], &[0x0b, 0x11, 0x09, 0x07]);
    assert_eq!(&bytes[4..16], b"version\0\0\0\0\0");
    assert_eq!(&bytes[16..20], &[91, 0, 0, 0]);
    assert_eq!(&bytes[20..24], &build_checksum(&payload));
    assert_eq!(&bytes[24..], &payload[..]);
    assert_eq!(message.magic_bytes(), &[0x0b, 0x11, 0x09, 0x07]);
    assert_eq!(*message.ty(), MessageType::Version);
    assert!(matches!(message.payload(), Payload::Version(_)));
}

#[test]
fn kind_of_a_message_is_that_of_its_payload() {
    let message = Message::build(Payload::VerAck(VerAck), MessageType::Ping, false);
    assert_eq!(*message.ty(), MessageType::VerAck);
    let mut bytes = message.serialize().unwrap();
    assert_eq!(&bytes[4..16], b"verack\0\0\0\0\0\0");
    assert_eq!(Message::deserialize(&mut bytes).unwrap(), message);
}

#[test]
fn magic_is_recorded_and_not_judged() {
    let mut bytes = Message::build(Payload::VerAck(VerAck), MessageType::VerAck, false)
        .serialize()
        .unwrap();
    bytes[0] = 1;
    bytes[1] = 2;
    bytes[2] = 3;
    bytes[3] = 4;
    let message = Message::deserialize(&mut bytes).unwrap();
    assert_eq!(message.magic_bytes(), &[1, 2, 3, 4]);
    assert_eq!(*message.ty(), MessageType::VerAck);
}

#[test]
fn message_ignores_bytes_after_the_payload() {
    let message = Message::build(Payload::Version(sample_version()), MessageType::Version, false);
    let mut bytes = message.serialize().unwrap();
    bytes.extend_from_slice(&[1, 2, 3]);
    assert_eq!(Message::deserialize(&mut bytes).unwrap(), message);
}

#[test]
fn any_flipped_payload_bit_is_a_checksum_error() {
    let message = Message::build(Payload::Version(sample_version()), MessageType::Version, false);
    let bytes = message.serialize().unwrap();
    for at in 24..bytes.len() {
        for bit in 0..8 {
            let mut changed = bytes.clone();
            changed[at] ^= 1 << bit;
            assert!(
                matches!(
                    Message::deserialize(&mut changed),
                    Err(SerdeBitcoinError::InvalidChecksum)
                ),
                "byte {} bit {}",
                at,
                bit
            );
        }
    }
}

#[test]
fn flipped_checksum_bit_is_a_checksum_error() {
    let mut bytes = Message::build(Payload::VerAck(VerAck), MessageType::VerAck, false)
        .serialize()
        .unwrap();
    bytes[23] ^= 1;
    assert!(matches!(
        Message::deserialize(&mut bytes),
        Err(SerdeBitcoinError::InvalidChecksum)
    ));
}

#[test]
fn truncated_message_is_an_io_error() {
    let bytes = Message::build(Payload::Version(sample_version()), MessageType::Version, false)
        .serialize()
        .unwrap();
    for len in 0..bytes.len() {
        let mut cut = bytes[..len].to_vec();
        assert!(
            matches!(Message::deserialize(&mut cut), Err(SerdeBitcoinError::IoError)),
            "length {}",
            len
        );
    }
}

#[test]
fn unknown_command_is_told_before_the_input_is_found_short() {
    let mut bytes = vec![0xf9, 0xbe, 0xb4, 0xd9];
    bytes.extend_from_slice(b"nonsense\0\0\0\0");
    match Message::deserialize(&mut bytes) {
        Err(SerdeBitcoinError::UnknownType(name)) => assert_eq!(name, "nonsense"),
        other => panic!("{:?}", other),
    }
}

fn framed(command: &[u8; 12], payload: &[u8]) -> Vec<u8> {
    let mut bytes = vec![0xf9, 0xbe, 0xb4, 0xd9];
    bytes.extend_from_slice(command);
    bytes.extend_from_slice(&(payload.len() as u32).to_le_bytes());
    bytes.extend_from_slice(&build_checksum(payload));
    bytes.extend_from_slice(payload);
    bytes
}

#[test]
fn known_command_without_codec_is_unsupported() {
    let mut ping = framed(b"ping\0\0\0\0\0\0\0\0", &[1, 2, 3, 4, 5, 6, 7, 8]);
    match Message::deserialize(&mut ping) {
        Err(SerdeBitcoinError::UnknownType(name)) => assert_eq!(name, "ping"),
        other => panic!("{:?}", other),
    }
    let mut unknown = framed(b"pong\0\0\0\0\0\0\0\0", &[1, 2, 3, 4, 5, 6, 7, 8]);
    match Message::deserialize(&mut unknown) {
        Err(SerdeBitcoinError::UnknownType(name)) => assert_eq!(name, "pong"),
        other => panic!("{:?}", other),
    }
    // The checksum is judged before the kind of the payload.
    let mut broken = framed(b"ping\0\0\0\0\0\0\0\0", &[1, 2, 3]);
    let last = broken.len() - 1;
    broken[last] ^= 0x10;
    assert!(matches!(
        Message::deserialize(&mut broken),
        Err(SerdeBitcoinError::InvalidChecksum)
    ));
}

#[test]
fn verack_message_may_carry_bytes_that_are_ignored() {
    let mut bytes = framed(b"verack\0\0\0\0\0\0", &[9, 9]);
    let message = Message::deserialize(&mut bytes).unwrap();
    assert_eq!(*message.payload(), Payload::VerAck(VerAck));
}

#[test]
fn version_message_with_broken_payload_fails_as_the_payload_does() {
    let mut short = framed(b"version\0\0\0\0\0", &[1, 2, 3]);
    assert!(matches!(
        Message::deserialize(&mut short),
        Err(SerdeBitcoinError::IoError)
    ));
    let mut payload = sample_version().serialize().unwrap();
    payload[81] = 0xc0;
    let mut bad_agent = framed(b"version\0\0\0\0\0", &payload);
    assert!(matches!(
        Message::deserialize(&mut bad_agent),
        Err(SerdeBitcoinError::FailedToParseUserAgent)
    ));
}

#[test]
fn length_field_beyond_the_input_is_an_io_error() {
    let mut bytes = framed(b"verack\0\0\0\0\0\0", &[]);
    bytes[16] = 0xff;
    bytes[17] = 0xff;
    bytes[18] = 0xff;
    bytes[19] = 0xff;
    assert!(matches!(
        Message::deserialize(&mut bytes),
        Err(SerdeBitcoinError::IoError)
    ));
}

#[test]
fn builder_fills_in_the_defaults() {
    let version = VersionBuilder::default()
        .receiver_address(v4(1, 2, 3, 4, 5))
        .sender_address(v4(6, 7, 8, 9, 10))
        .build_with(1_700_000_000, 42)
        .unwrap();
    assert_eq!(*version.protocol_version(), 70016);
    assert_eq!(*version.services(), 1);
    assert_eq!(*version.timestamp(), 1_700_000_000);
    assert_eq!(*version.receiver_services(), 1);
    assert_eq!(*version.receiver_address(), v4(1, 2, 3, 4, 5));
    assert_eq!(*version.sender_services(), 1);
    assert_eq!(*version.sender_address(), v4(6, 7, 8, 9, 10));
    assert_eq!(*version.nonce(), 42);
    assert_eq!(version.user_agent(), "Satoshi:0.21.0");
    assert_eq!(*version.start_height(), 0);
    assert_eq!(*version.relay(), false);
}

#[test]
fn builder_keeps_what_was_set() {
    let version = VersionBuilder::default()
        .receiver_address(v4(1, 2, 3, 4, 5))
        .sender_address(v4(6, 7, 8, 9, 10))
        .timestamp(7)
        .nonce(8)
        .build_with(1_700_000_000, 42)
        .unwrap();
    assert_eq!(*version.timestamp(), 7);
    assert_eq!(*version.nonce(), 8);
    let again = VersionBuilder::default()
        .receiver_address(v4(1, 2, 3, 4, 5))
        .sender_address(v4(6, 7, 8, 9, 10))
        .timestamp(7)
        .nonce(8)
        .build()
        .unwrap();
    assert_eq!(again, version);
}

#[test]
fn builder_reads_the_clock_and_draws_a_nonce() {
    let builder = VersionBuilder::default()
        .receiver_address(v4(1, 2, 3, 4, 5))
        .sender_address(v4(6, 7, 8, 9, 10));
    let a = builder.build().unwrap();
    let b = builder.build().unwrap();
    // Later than the first day of 2020.
    assert!(*a.timestamp() > 1_577_836_800);
    assert!(*b.timestamp() >= *a.timestamp());
    let c = builder.build().unwrap();
    assert!(a.nonce() != b.nonce() || b.nonce() != c.nonce());
}

#[test]
fn builder_names_the_first_missing_address() {
    match VersionBuilder::default().build() {
        Err(VersionBuilderError::UninitializedField(name)) => assert_eq!(name, "receiver_address"),
        other => panic!("{:?}", other),
    }
    match VersionBuilder::default().receiver_address(v4(1, 2, 3, 4, 5)).build() {
        Err(VersionBuilderError::UninitializedField(name)) => assert_eq!(name, "sender_address"),
        other => panic!("{:?}", other),
    }
    match VersionBuilder::default().sender_address(v4(1, 2, 3, 4, 5)).build_with(0, 0) {
        Err(VersionBuilderError::UninitializedField(name)) => assert_eq!(name, "receiver_address"),
        other => panic!("{:?}", other),
    }
}
