//! What both sides of a handshake have in common: the two messages that are
//! exchanged, ready to be sent.

use crate::address::SocketAddress;
use crate::error::SerdeBitcoinError;
use crate::message::{envelope_bytes, lemma_payload_fits, magic_of, Message, Payload, PayloadView};
use crate::message_type::{lemma_command_roundtrip, MessageType};
use crate::serde_bitcoin::SerdeBitcoin;
use crate::verack::VerAck;
use crate::version::{build_model, default_user_agent, version_bytes, VersionBuilder,
    VersionBuilderError, VersionView, DEFAULT_SERVICES, PROTOCOL_VERSION};
use vstd::prelude::*;
use vstd::utf8::encode_utf8;

verus! {

/// A message that one side owes the other.
#[derive(Clone, Copy, Debug, PartialEq, Eq, Structural)]
pub enum Outgoing {
    /// The identity announcement.
    Version,
    /// The acknowledgment.
    VerAck,
    /// Nothing is owed.
    Nothing,
}

/// Why a handshake message could not be made ready.
#[derive(Debug)]
pub enum BuildError {
    /// The announcement lacks a field.
    Payload(VersionBuilderError),
    /// The message has no encoding.
    Message(SerdeBitcoinError),
}

/// The announcement that a node makes of itself by default: every field but
/// the addresses, the time and the nonce has its default.
pub open spec fn announcement(
    receiver: SocketAddress,
    sender: SocketAddress,
    now: i64,
    random: u64,
) -> VersionView {
    VersionView {
        protocol_version: PROTOCOL_VERSION,
        services: DEFAULT_SERVICES,
        timestamp: now,
        receiver_services: DEFAULT_SERVICES,
        receiver_address: receiver,
        sender_services: DEFAULT_SERVICES,
        sender_address: sender,
        nonce: random,
        user_agent: default_user_agent(),
        start_height: 0,
        relay: false,
    }
}

/// The bytes of the message that carries `announcement(..)`.
pub open spec fn version_message_bytes(
    receiver: SocketAddress,
    sender: SocketAddress,
    testnet: bool,
    now: i64,
    random: u64,
) -> Seq<u8> {
    envelope_bytes(
        magic_of(testnet),
        MessageType::Version,
        version_bytes(announcement(receiver, sender, now, random)),
    )
}

/// The bytes of the acknowledgment message: an envelope around no payload.
pub open spec fn verack_message_bytes(testnet: bool) -> Seq<u8> {
    envelope_bytes(magic_of(testnet), MessageType::VerAck, Seq::empty())
}

/// The default user agent has fourteen bytes.
pub proof fn lemma_default_user_agent_is_short()
    ensures
        encode_utf8(default_user_agent()).len() == 14,
{
    reveal_strlit("Satoshi:0.21.0");
    assert(vstd::utf8::is_ascii_chars(default_user_agent()));
    vstd::utf8::is_ascii_chars_encode_utf8(default_user_agent());
}

/// The announcement message for the time `now` and the random number
/// `random`, ready to be sent. It never fails.
pub fn version_message_with(
    receiver: SocketAddress,
    sender: SocketAddress,
    testnet: bool,
    now: i64,
    random: u64,
) -> (res: Result<Vec<u8>, BuildError>)
    ensures
        res matches Ok(bytes) && bytes@ == version_message_bytes(
            receiver,
            sender,
            testnet,
            now,
            random,
        ),
{
    let builder = VersionBuilder::default().receiver_address(receiver).sender_address(sender);
    let version = match builder.build_with(now, random) {
        Ok(version) => version,
        Err(e) => {
            return Err(BuildError::Payload(e));
        },
    };
    assert(version@ == announcement(receiver, sender, now, random));
    encode_payload(Payload::Version(version), MessageType::Version, testnet)
}

/// The announcement message, ready to be sent, made at the time of the call
/// and with a fresh nonce. It never fails.
pub fn version_message(receiver: SocketAddress, sender: SocketAddress, testnet: bool) -> (res:
    Result<Vec<u8>, BuildError>)
    ensures
        exists|now: i64, random: u64|
            res matches Ok(bytes) && bytes@ == #[trigger] version_message_bytes(
                receiver,
                sender,
                testnet,
                now,
                random,
            ),
{
    let builder = VersionBuilder::default().receiver_address(receiver).sender_address(sender);
    let version = match builder.build() {
        Ok(version) => version,
        Err(e) => {
            return Err(BuildError::Payload(e));
        },
    };
    let res = encode_payload(Payload::Version(version), MessageType::Version, testnet);
    proof {
        let (now, random) = choose|now: i64, random: u64|
            crate::version::built_as(
                Ok::<crate::version::Version, VersionBuilderError>(version),
                #[trigger] build_model(builder@, now, random),
            );
        assert(version@ == announcement(receiver, sender, now, random));
        assert(res matches Ok(bytes) && bytes@ == version_message_bytes(
            receiver,
            sender,
            testnet,
            now,
            random,
        ));
    }
    res
}

/// The acknowledgment message, ready to be sent. It never fails.
pub fn verack_message(testnet: bool) -> (res: Result<Vec<u8>, BuildError>)
    ensures
        res matches Ok(bytes) && bytes@ == verack_message_bytes(testnet),
{
    encode_payload(Payload::VerAck(VerAck), MessageType::VerAck, testnet)
}

/// Frames a payload of a handshake kind whose user agent, if it has one, is
/// the default one.
fn encode_payload(payload: Payload, ty: MessageType, testnet: bool) -> (res: Result<
    Vec<u8>,
    BuildError,
>)
    requires
        ty == payload@.message_type(),
        payload@ matches PayloadView::Version(v) ==> v.user_agent == default_user_agent(),
    ensures
        res matches Ok(bytes) && bytes@ == envelope_bytes(
            magic_of(testnet),
            ty,
            payload@.wire_bytes()->Ok_0,
        ),
        payload@.wire_bytes() is Ok,
{
    proof {
        lemma_default_user_agent_is_short();
        lemma_payload_fits(payload@);
        lemma_command_roundtrip(ty);
    }
    let message = Message::build(payload, ty, testnet);
    match message.serialize() {
        Ok(bytes) => Ok(bytes),
        Err(e) => Err(BuildError::Message(e)),
    }
}

} // verus!
