use bitcoin_handshake::address::{IpAddress, SocketAddress};
use bitcoin_handshake::config::{Network, SenderConfig};
use bitcoin_handshake::handshake::{
    verack_message, version_message, version_message_with, Outgoing,
};
use bitcoin_handshake::listener;
use bitcoin_handshake::listener::{ConnectionStatus, Connections, Step};
use bitcoin_handshake::message_type::MessageType;
use bitcoin_handshake::sender;
use bitcoin_handshake::sender::{Outcome, Phase};
use bitcoin_handshake::verack::VerAck;
use bitcoin_handshake::version::VersionBuilder;
use bitcoin_handshake::{Message, Payload, SerdeBitcoin, SerdeBitcoinError};

fn peer() -> SocketAddress {
    SocketAddress::new(IpAddress::v4(203, 0, 113, 7), 18333)
}

fn local() -> SocketAddress {
    SocketAddress::new(IpAddress::v4(127, 0, 0, 1), 18444)
}

fn version_bytes() -> Vec<u8> {
    version_message_with(local(), peer(), true, 1_700_000_000, 99).unwrap()
}

fn verack_bytes() -> Vec<u8> {
    verack_message(true).unwrap()
}

fn ping_bytes() -> Vec<u8> {
    let mut bytes = verack_bytes();
    bytes[4..16].copy_from_slice(b"ping\0\0\0\0\0\0\0\0");
    bytes
}

#[test]
fn network_knows_whether_it_is_the_test_one() {
    assert_eq!(Network::Mainnet.is_testnet(), false);
    assert_eq!(Network::Testnet.is_testnet(), true);
}

#[test]
fn seed_that_names_this_machine_is_not_resolved() {
    let config = |seed: &str| SenderConfig {
        dns_seed: seed.to_string(),
        port: 18444,
        network: Network::Testnet,
    };
    assert_eq!(
        config("localhost").local_target(),
        Some(SocketAddress::new(IpAddress::V4(0x7f00_0001), 18444))
    );
    assert_eq!(config("my.localhost.example").local_target(), Some(local()));
    assert_eq!(config("seed.example.org").local_target(), None);
    assert_eq!(config("localhos").local_target(), None);
    assert_eq!(config("").local_target(), None);
}

#[test]
fn announcement_message_carries_the_defaults() {
    let mut bytes = version_message_with(peer(), local(), false, 1_700_000_000, 99).unwrap();
    let message = Message::deserialize(&mut bytes).unwrap();
    assert_eq!(message.magic_bytes(), &[0xf9, 0xbe, 0xb4, 0xd9]);
    let expected = VersionBuilder::default()
        .receiver_address(peer())
        .sender_address(local())
        .build_with(1_700_000_000, 99)
        .unwrap();
    assert_eq!(*message.payload(), Payload::Version(expected));
    assert_eq!(bytes.len(), 24 + 100);
}

#[test]
fn announcement_message_of_now_is_framed_alike() {
    let mut bytes = version_message(peer(), local(), true).unwrap();
    assert_eq!(bytes.len(), 124);
    let message = Message::deserialize(&mut bytes).unwrap();
    match message.payload() {
        Payload::Version(version) => {
            assert_eq!(*version.receiver_address(), peer());
            assert_eq!(*version.sender_address(), local());
            assert_eq!(version.user_agent(), "Satoshi:0.21.0");
        }
        other => panic!("{:?}", other),
    }
}

#[test]
fn acknowledgment_message_is_an_empty_envelope() {
    let mut bytes = verack_message(false).unwrap();
    assert_eq!(bytes.len(), 24);
    let message = Message::deserialize(&mut bytes).unwrap();
    assert_eq!(*message.payload(), Payload::VerAck(VerAck));
}

#[test]
fn responder_completes_a_handshake() {
    let status = ConnectionStatus::default();
    assert_eq!(status, ConnectionStatus::NoConnection);

    let step = listener::receive(status, &version_bytes()).unwrap();
    assert_eq!(
        step,
        Step::Advance { status: ConnectionStatus::Connecting, reply: Outgoing::Version }
    );
    let mut reply = listener::reply_bytes(Outgoing::Version, peer(), local(), true)
        .unwrap()
        .unwrap();
    let sent = Message::deserialize(&mut reply).unwrap();
    assert_eq!(*sent.ty(), MessageType::Version);
    match sent.payload() {
        Payload::Version(version) => {
            assert_eq!(*version.receiver_address(), peer());
            assert_eq!(*version.sender_address(), local());
        }
        other => panic!("{:?}", other),
    }

    let step = listener::receive(ConnectionStatus::Connecting, &verack_bytes()).unwrap();
    assert_eq!(
        step,
        Step::Advance { status: ConnectionStatus::Connected, reply: Outgoing::VerAck }
    );
    let reply = listener::reply_bytes(Outgoing::VerAck, peer(), local(), true)
        .unwrap()
        .unwrap();
    assert_eq!(reply, verack_bytes());

    for bytes in [version_bytes(), verack_bytes()] {
        let step = listener::receive(ConnectionStatus::Connected, &bytes).unwrap();
        assert_eq!(
            step,
            Step::Advance { status: ConnectionStatus::Connected, reply: Outgoing::Nothing }
        );
    }
    assert_eq!(
        listener::reply_bytes(Outgoing::Nothing, peer(), local(), true).unwrap(),
        None
    );
}

#[test]
fn responder_refuses_an_acknowledgment_that_comes_first() {
    match listener::receive(ConnectionStatus::NoConnection, &verack_bytes()) {
        Err(listener::Error::ReceivedWrongMessageType(received, expected)) => {
            assert_eq!(received, "verack");
            assert_eq!(expected, "version");
        }
        other => panic!("{:?}", other),
    }
    match listener::respond(ConnectionStatus::NoConnection, &MessageType::VerAck) {
        Err(listener::Error::ReceivedWrongMessageType(received, expected)) => {
            assert_eq!(received, "verack");
            assert_eq!(expected, "version");
        }
        other => panic!("{:?}", other),
    }
}

#[test]
fn responder_refuses_a_second_announcement() {
    match listener::receive(ConnectionStatus::Connecting, &version_bytes()) {
        Err(listener::Error::ReceivedWrongMessageType(received, expected)) => {
            assert_eq!(received, "version");
            assert_eq!(expected, "verack");
        }
        other => panic!("{:?}", other),
    }
    match listener::respond(ConnectionStatus::Connecting, &MessageType::Ping) {
        Err(listener::Error::ReceivedWrongMessageType(received, expected)) => {
            assert_eq!(received, "ping");
            assert_eq!(expected, "verack");
        }
        other => panic!("{:?}", other),
    }
}

#[test]
fn responder_accepts_any_kind_once_connected() {
    assert_eq!(
        listener::respond(ConnectionStatus::Connected, &MessageType::GetData).unwrap(),
        Step::Advance { status: ConnectionStatus::Connected, reply: Outgoing::Nothing }
    );
}

#[test]
fn responder_ends_in_peace_when_the_peer_closes() {
    for status in [
        ConnectionStatus::NoConnection,
        ConnectionStatus::Connecting,
        ConnectionStatus::Connected,
    ] {
        assert_eq!(listener::receive(status, &[]).unwrap(), Step::Closed);
    }
}

#[test]
fn responder_fails_on_bytes_that_are_no_message() {
    assert!(matches!(
        listener::receive(ConnectionStatus::NoConnection, &[1, 2, 3]),
        Err(listener::Error::DeserializeVersionResponse(SerdeBitcoinError::IoError))
    ));
    let mut broken = version_bytes();
    broken[30] ^= 1;
    assert!(matches!(
        listener::receive(ConnectionStatus::Connected, &broken),
        Err(listener::Error::DeserializeVersionResponse(SerdeBitcoinError::InvalidChecksum))
    ));
    match listener::receive(ConnectionStatus::Connected, &ping_bytes()) {
        Err(listener::Error::DeserializeVersionResponse(SerdeBitcoinError::UnknownType(name))) => {
            assert_eq!(name, "ping")
        }
        other => panic!("{:?}", other),
    }
}

#[test]
fn status_of_a_peer_never_heard_of_is_no_connection() {
    assert_eq!(listener::status_or_default(None), ConnectionStatus::NoConnection);
    assert_eq!(
        listener::status_or_default(Some(ConnectionStatus::Connecting)),
        ConnectionStatus::Connecting
    );
}

#[test]
fn table_of_connections_keeps_the_status_of_each_peer() {
    let table = Connections::new();
    assert_eq!(table.status(&peer()), ConnectionStatus::NoConnection);
    table.record(peer(), ConnectionStatus::Connecting);
    assert_eq!(table.status(&peer()), ConnectionStatus::Connecting);
    assert_eq!(table.status(&local()), ConnectionStatus::NoConnection);
    table.record(peer(), ConnectionStatus::Connected);
    table.record(local(), ConnectionStatus::Connecting);
    assert_eq!(table.status(&peer()), ConnectionStatus::Connected);
    assert_eq!(table.status(&local()), ConnectionStatus::Connecting);
}

#[test]
fn initiator_completes_a_handshake() {
    let phase = Phase::start();
    assert_eq!(phase, Phase::Connecting);
    assert_eq!(phase.timeout_secs(), Some(15));
    assert_eq!(phase.request(), Outgoing::Nothing);
    assert_eq!(phase.conclude(peer()), None);

    let phase = sender::advance(phase, Outcome::Completed(&[])).unwrap();
    assert_eq!(phase, Phase::AwaitingVersion);
    assert_eq!(phase.timeout_secs(), Some(30));
    assert_eq!(phase.request(), Outgoing::Version);
    let mut request = sender::request_bytes(phase, peer(), local(), true).unwrap().unwrap();
    match Message::deserialize(&mut request).unwrap().payload() {
        Payload::Version(version) => {
            assert_eq!(*version.receiver_address(), peer());
            assert_eq!(*version.sender_address(), local());
        }
        other => panic!("{:?}", other),
    }
    assert_eq!(phase.conclude(peer()), None);

    let phase = sender::advance(phase, Outcome::Completed(&version_bytes())).unwrap();
    assert_eq!(phase, Phase::AwaitingVerAck);
    assert_eq!(phase.timeout_secs(), Some(30));
    assert_eq!(phase.request(), Outgoing::VerAck);
    assert_eq!(
        sender::request_bytes(phase, peer(), local(), true).unwrap(),
        Some(verack_bytes())
    );
    assert_eq!(phase.conclude(peer()), None);

    let phase = sender::advance(phase, Outcome::Completed(&verack_bytes())).unwrap();
    assert_eq!(phase, Phase::Connected);
    assert_eq!(phase.timeout_secs(), None);
    assert_eq!(sender::request_bytes(phase, peer(), local(), true).unwrap(), None);
    let info = phase.conclude(peer()).unwrap();
    assert_eq!(*info.addr(), peer());

    assert_eq!(sender::advance(phase, Outcome::TimedOut).unwrap(), Phase::Connected);
    assert_eq!(
        sender::advance(phase, Outcome::Completed(&[1])).unwrap(),
        Phase::Connected
    );
}

#[test]
fn initiator_gives_up_when_a_deadline_passes() {
    assert!(matches!(
        sender::advance(Phase::Connecting, Outcome::TimedOut),
        Err(sender::Error::ConnectionTimeout)
    ));
    assert!(matches!(
        sender::advance(Phase::AwaitingVersion, Outcome::TimedOut),
        Err(sender::Error::VersionTimeout)
    ));
    assert!(matches!(
        sender::advance(Phase::AwaitingVerAck, Outcome::TimedOut),
        Err(sender::Error::VerackTimeout)
    ));
}

#[test]
fn initiator_refuses_an_answer_of_the_wrong_kind() {
    match sender::advance(Phase::AwaitingVersion, Outcome::Completed(&verack_bytes())) {
        Err(sender::Error::ReceivedWrongMessageType(received, expected)) => {
            assert_eq!(received, "verack");
            assert_eq!(expected, "version");
        }
        other => panic!("{:?}", other),
    }
    match sender::advance(Phase::AwaitingVerAck, Outcome::Completed(&version_bytes())) {
        Err(sender::Error::ReceivedWrongMessageType(received, expected)) => {
            assert_eq!(received, "version");
            assert_eq!(expected, "verack");
        }
        other => panic!("{:?}", other),
    }
}

#[test]
fn initiator_fails_on_an_answer_that_is_no_message() {
    assert!(matches!(
        sender::advance(Phase::AwaitingVersion, Outcome::Completed(&[])),
        Err(sender::Error::DeserializeVersionResponse(SerdeBitcoinError::IoError))
    ));
    let mut broken = verack_bytes();
    broken[20] ^= 0x40;
    assert!(matches!(
        sender::advance(Phase::AwaitingVerAck, Outcome::Completed(&broken)),
        Err(sender::Error::DeserializeVerackResponse(SerdeBitcoinError::InvalidChecksum))
    ));
    match sender::advance(Phase::AwaitingVersion, Outcome::Completed(&ping_bytes())) {
        Err(sender::Error::DeserializeVersionResponse(SerdeBitcoinError::UnknownType(name))) => {
            assert_eq!(name, "ping")
        }
        other => panic!("{:?}", other),
    }
}
