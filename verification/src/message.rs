//! The envelope that frames every payload.
//!
//! On the wire a message is: four magic bytes that name the network, the
//! twelve-byte command field, the length of the payload (4 bytes,
//! little-endian), the checksum of the payload (4 bytes), and the payload.

use crate::checksum::{build_checksum, checksum_of};
use crate::endian::{le_bytes, le_value, lemma_le_bytes_len, lemma_le_value_of_bytes,
    lemma_pow256_widths, read_u32_le, write_u32_le};
use crate::error::{SerdeBitcoinError, SerdeErrorView};
use crate::message_type::{lemma_command_roundtrip, parse_command, MessageType};
use crate::serde_bitcoin::{decoded_as, SerdeBitcoin};
use crate::verack::VerAck;
use crate::version::{lemma_version_roundtrip, parse_version, survives_the_wire, version_bytes,
    Version, VersionView};
use vstd::prelude::*;
use vstd::slice::slice_subrange;

verus! {

/// The number of magic bytes.
pub const MAGIC_BYTES_LENGTH: usize = 4;

/// The number of bytes before the payload.
pub const BASE_SIZE: usize = 24;

/// The magic bytes of the main network, or of the test network.
pub open spec fn magic_of(testnet: bool) -> Seq<u8> {
    if testnet {
        seq![0x0bu8, 0x11u8, 0x09u8, 0x07u8]
    } else {
        seq![0xf9u8, 0xbeu8, 0xb4u8, 0xd9u8]
    }
}

/// A message body that this crate can encode and decode.
#[derive(Debug, Clone, PartialEq, Eq)]
pub enum Payload {
    Version(Version),
    VerAck(VerAck),
}

/// The mathematical value of a `Payload`.
pub enum PayloadView {
    Version(VersionView),
    VerAck,
}

impl View for Payload {
    type V = PayloadView;

    open spec fn view(&self) -> PayloadView {
        match self {
            Payload::Version(version) => PayloadView::Version(version@),
            Payload::VerAck(_) => PayloadView::VerAck,
        }
    }
}

impl PayloadView {
    /// The kind of message that carries this payload.
    pub open spec fn message_type(self) -> MessageType {
        match self {
            PayloadView::Version(_) => MessageType::Version,
            PayloadView::VerAck => MessageType::VerAck,
        }
    }

    /// The bytes of this payload, or why it has none.
    pub open spec fn wire_bytes(self) -> Result<Seq<u8>, SerdeErrorView> {
        match self {
            PayloadView::Version(version) => Version::wire_bytes(version),
            PayloadView::VerAck => VerAck::wire_bytes(VerAck),
        }
    }
}

impl Payload {
    /// The kind of message that carries this payload.
    pub fn message_type(&self) -> (ty: MessageType)
        ensures
            ty == self@.message_type(),
    {
        match self {
            Payload::Version(_) => MessageType::Version,
            Payload::VerAck(_) => MessageType::VerAck,
        }
    }

    /// Encodes the payload with the codec of its kind.
    pub fn serialize(&self) -> (res: Result<Vec<u8>, SerdeBitcoinError>)
        ensures
            crate::serde_bitcoin::encoded_as(res, self@.wire_bytes()),
    {
        match self {
            Payload::Version(version) => version.serialize(),
            Payload::VerAck(verack) => verack.serialize(),
        }
    }
}

/// A payload with the network it is meant for and the name of its kind.
#[derive(Debug, PartialEq, Eq)]
pub struct Message {
    magic_bytes: [u8; 4],
    ty: MessageType,
    payload: Payload,
}

/// The mathematical value of a `Message`.
pub struct MessageView {
    pub magic_bytes: Seq<u8>,
    pub ty: MessageType,
    pub payload: PayloadView,
}

impl View for Message {
    type V = MessageView;

    closed spec fn view(&self) -> MessageView {
        MessageView { magic_bytes: self.magic_bytes@, ty: self.ty, payload: self.payload@ }
    }
}

impl MessageView {
    /// The kind that the message names is the kind of its payload, and it has
    /// four magic bytes.
    pub open spec fn well_formed(self) -> bool {
        &&& self.ty == self.payload.message_type()
        &&& self.magic_bytes.len() == MAGIC_BYTES_LENGTH
    }
}

/// The envelope around `payload`: magic bytes, command field of `ty`, length,
/// checksum, payload.
pub open spec fn envelope_bytes(magic_bytes: Seq<u8>, ty: MessageType, payload: Seq<u8>) -> Seq<
    u8,
> {
    magic_bytes + ty.command_bytes() + le_bytes(payload.len(), 4) + checksum_of(payload) + payload
}

/// The bytes of a message. The command field is that of the kind of the
/// payload.
pub open spec fn message_bytes(m: MessageView) -> Result<Seq<u8>, SerdeErrorView> {
    match m.payload.wire_bytes() {
        Err(e) => Err(e),
        Ok(payload) => if payload.len() > u32::MAX {
            Err(SerdeErrorView::InvalidPayloadLength)
        } else {
            match MessageType::wire_bytes(m.payload.message_type()) {
                Err(e) => Err(e),
                Ok(_) => Ok(envelope_bytes(m.magic_bytes, m.payload.message_type(), payload)),
            }
        },
    }
}

/// What the payload bytes of a message of kind `ty` stand for. Only the two
/// handshake kinds have a codec; every other known kind is refused by name.
pub open spec fn parse_payload(ty: MessageType, payload: Seq<u8>) -> Result<
    PayloadView,
    SerdeErrorView,
> {
    match ty {
        MessageType::Version => match parse_version(payload) {
            Ok(version) => Ok(PayloadView::Version(version)),
            Err(e) => Err(e),
        },
        MessageType::VerAck => Ok(PayloadView::VerAck),
        other => Err(SerdeErrorView::UnknownType(other.name())),
    }
}

/// What `data` stands for. Reading goes from the front and stops at the
/// first fault: input that ends early is an I/O error; the command field is
/// read before the length; the checksum is compared before the payload is
/// looked at. The magic bytes are recorded, not judged. Bytes after the
/// payload are not looked at.
pub open spec fn parse_message(data: Seq<u8>) -> Result<MessageView, SerdeErrorView> {
    if data.len() < 16 {
        Err(SerdeErrorView::IoError)
    } else {
        match parse_command(data.subrange(4, 16)) {
            Err(e) => Err(e),
            Ok(ty) => if data.len() < BASE_SIZE {
                Err(SerdeErrorView::IoError)
            } else {
                let length = le_value(data.subrange(16, 20));
                if data.len() < BASE_SIZE + length {
                    Err(SerdeErrorView::IoError)
                } else {
                    let payload = data.subrange(BASE_SIZE as int, BASE_SIZE + length);
                    if checksum_of(payload) != data.subrange(20, 24) {
                        Err(SerdeErrorView::InvalidChecksum)
                    } else {
                        match parse_payload(ty, payload) {
                            Err(e) => Err(e),
                            Ok(p) => Ok(
                                MessageView { magic_bytes: data.subrange(0, 4), ty, payload: p },
                            ),
                        }
                    }
                }
            },
        }
    }
}

impl Message {
    /// A message for the test network or the main one. The kind of a message
    /// is always the kind of its payload: `ty` is taken for callers that name
    /// the kind, and is not looked at.
    #[allow(unused_variables)]
    pub fn build(payload: Payload, ty: MessageType, testnet: bool) -> (message: Message)
        ensures
            message@.magic_bytes == magic_of(testnet),
            message@.ty == payload@.message_type(),
            message@.payload == payload@,
            message@.well_formed(),
    {
        let magic_bytes: [u8; 4] = if testnet {
            [0x0bu8, 0x11u8, 0x09u8, 0x07u8]
        } else {
            [0xf9u8, 0xbeu8, 0xb4u8, 0xd9u8]
        };
        assert(magic_bytes@ =~= magic_of(testnet));
        let kind = payload.message_type();
        Message { magic_bytes, ty: kind, payload }
    }

    pub fn magic_bytes(&self) -> (magic_bytes: &[u8; 4])
        ensures
            magic_bytes@ == self@.magic_bytes,
    {
        &self.magic_bytes
    }

    pub fn ty(&self) -> (ty: &MessageType)
        ensures
            *ty == self@.ty,
    {
        &self.ty
    }

    pub fn payload(&self) -> (payload: &Payload)
        ensures
            payload@ == self@.payload,
    {
        &self.payload
    }

    /// Reads one message from the front of `data`.
    pub fn decode(data: &[u8]) -> (res: Result<Message, SerdeBitcoinError>)
        ensures
            decoded_as(res, parse_message(data@)),
            res matches Ok(message) ==> message@.well_formed(),
    {
        if data.len() < 16 {
            return Err(SerdeBitcoinError::IoError);
        }
        let magic_bytes: [u8; 4] = [data[0], data[1], data[2], data[3]];
        assert(magic_bytes@ =~= data@.subrange(0, 4));
        let ty = match MessageType::decode(slice_subrange(data, 4, 16)) {
            Ok(ty) => ty,
            Err(e) => {
                return Err(e);
            },
        };
        if data.len() < BASE_SIZE {
            return Err(SerdeBitcoinError::IoError);
        }
        let length: u32 = read_u32_le(slice_subrange(data, 16, 20));
        if ((data.len() - BASE_SIZE) as u64) < length as u64 {
            return Err(SerdeBitcoinError::IoError);
        }
        let end: usize = BASE_SIZE + length as usize;
        let payload_bytes = slice_subrange(data, BASE_SIZE, end);
        let checksum: [u8; 4] = build_checksum(payload_bytes);
        if checksum[0] != data[20] || checksum[1] != data[21] || checksum[2] != data[22]
            || checksum[3] != data[23] {
            assert(checksum@ != data@.subrange(20, 24)) by {
                assert(data@.subrange(20, 24)[0] == data@[20]);
                assert(data@.subrange(20, 24)[1] == data@[21]);
                assert(data@.subrange(20, 24)[2] == data@[22]);
                assert(data@.subrange(20, 24)[3] == data@[23]);
            }
            return Err(SerdeBitcoinError::InvalidChecksum);
        }
        assert(checksum@ =~= data@.subrange(20, 24));
        let payload = match ty {
            MessageType::Version => match Version::decode(payload_bytes) {
                Ok(version) => Payload::Version(version),
                Err(e) => {
                    return Err(e);
                },
            },
            MessageType::VerAck => Payload::VerAck(VerAck),
            other => {
                return Err(SerdeBitcoinError::UnknownType(other.to_string()));
            },
        };
        Ok(Message { magic_bytes, ty, payload })
    }
}

impl SerdeBitcoin for Message {
    open spec fn wire_bytes(value: MessageView) -> Result<Seq<u8>, SerdeErrorView> {
        message_bytes(value)
    }

    open spec fn parse(data: Seq<u8>) -> Result<MessageView, SerdeErrorView> {
        parse_message(data)
    }

    fn serialize(&self) -> (res: Result<Vec<u8>, SerdeBitcoinError>) {
        let mut payload_bytes: Vec<u8> = self.payload.serialize()?;
        if payload_bytes.len() > u32::MAX as usize {
            return Err(SerdeBitcoinError::InvalidPayloadLength);
        }
        let payload_length: u32 = payload_bytes.len() as u32;
        let mut result: Vec<u8> = Vec::with_capacity(BASE_SIZE);
        result.extend_from_slice(self.magic_bytes.as_slice());
        let mut message_type: Vec<u8> = self.payload.message_type().serialize()?;
        result.append(&mut message_type);
        let mut length: Vec<u8> = write_u32_le(payload_length);
        result.append(&mut length);
        let checksum: [u8; 4] = build_checksum(payload_bytes.as_slice());
        result.extend_from_slice(checksum.as_slice());
        let ghost payload = payload_bytes@;
        result.append(&mut payload_bytes);
        assert(result@ =~= envelope_bytes(
            self@.magic_bytes,
            self@.payload.message_type(),
            payload,
        ));
        Ok(result)
    }

    fn deserialize(data: &mut [u8]) -> (res: Result<Message, SerdeBitcoinError>) {
        Message::decode(data)
    }
}

/// A payload that comes back unchanged from its bytes.
pub open spec fn payload_survives(payload: PayloadView) -> bool {
    match payload {
        PayloadView::Version(version) => survives_the_wire(version),
        PayloadView::VerAck => true,
    }
}

/// The parts of an envelope, each at its place.
pub proof fn lemma_envelope_parts(magic_bytes: Seq<u8>, ty: MessageType, payload: Seq<u8>)
    requires
        magic_bytes.len() == MAGIC_BYTES_LENGTH,
        payload.len() <= u32::MAX,
    ensures
        ({
            let data = envelope_bytes(magic_bytes, ty, payload);
            &&& data.len() == BASE_SIZE + payload.len()
            &&& data.subrange(0, 4) == magic_bytes
            &&& data.subrange(4, 16) == ty.command_bytes()
            &&& le_value(data.subrange(16, 20)) == payload.len()
            &&& data.subrange(20, 24) == checksum_of(payload)
            &&& data.subrange(BASE_SIZE as int, data.len() as int) == payload
        }),
{
    let data = envelope_bytes(magic_bytes, ty, payload);
    lemma_command_roundtrip(ty);
    lemma_le_bytes_len(payload.len(), 4);
    lemma_pow256_widths();
    lemma_le_value_of_bytes(payload.len(), 4);
    assert(data.subrange(0, 4) =~= magic_bytes);
    assert(data.subrange(4, 16) =~= ty.command_bytes());
    assert(data.subrange(16, 20) =~= le_bytes(payload.len(), 4));
    assert(data.subrange(20, 24) =~= checksum_of(payload));
    assert(data.subrange(BASE_SIZE as int, data.len() as int) =~= payload);
}

/// The payloads of this crate are short: their length fits the length field.
pub proof fn lemma_payload_fits(payload: PayloadView)
    ensures
        payload.wire_bytes() matches Ok(bytes) ==> bytes.len() <= 341,
{
    if let PayloadView::Version(v) = payload {
        crate::version::lemma_head_fields(v);
        lemma_le_bytes_len(crate::endian::unsigned32(v.start_height), 4);
    }
}

/// Decoding the bytes of a message gives the message back, for every message
/// whose kind is that of its payload and whose payload comes back from its own
/// bytes. Bytes that follow the message change nothing.
pub proof fn lemma_message_roundtrip(m: MessageView, rest: Seq<u8>)
    requires
        m.well_formed(),
        payload_survives(m.payload),
    ensures
        Message::wire_bytes(m) is Ok,
        Message::parse(Message::wire_bytes(m)->Ok_0 + rest) == Ok::<MessageView, SerdeErrorView>(
            m,
        ),
{
    let payload = m.payload.wire_bytes()->Ok_0;
    match m.payload {
        PayloadView::Version(v) => {
            lemma_version_roundtrip(v, Seq::empty());
            assert(version_bytes(v) + Seq::<u8>::empty() =~= version_bytes(v));
        },
        PayloadView::VerAck => {},
    }
    lemma_payload_fits(m.payload);
    lemma_command_roundtrip(m.ty);
    lemma_envelope_parts(m.magic_bytes, m.ty, payload);
    let bytes = envelope_bytes(m.magic_bytes, m.ty, payload);
    let data = bytes + rest;
    assert(data.subrange(0, 4) =~= bytes.subrange(0, 4));
    assert(data.subrange(4, 16) =~= bytes.subrange(4, 16));
    assert(data.subrange(16, 20) =~= bytes.subrange(16, 20));
    assert(data.subrange(20, 24) =~= bytes.subrange(20, 24));
    assert(data.subrange(BASE_SIZE as int, BASE_SIZE + payload.len()) =~= bytes.subrange(
        BASE_SIZE as int,
        bytes.len() as int,
    ));
}

/// A message whose payload was changed on the way is refused for its
/// checksum: if one byte of the payload of an encoded message is replaced (a
/// flipped bit replaces a byte), and the checksum of the changed payload is
/// not that of the payload as it was sent, decoding fails with `InvalidChecksum`.
pub proof fn lemma_changed_payload_is_refused(m: MessageView, at: int, byte: u8)
    requires
        m.magic_bytes.len() == MAGIC_BYTES_LENGTH,
        Message::wire_bytes(m) is Ok,
        BASE_SIZE <= at < (Message::wire_bytes(m)->Ok_0).len(),
        ({
            let bytes = Message::wire_bytes(m)->Ok_0;
            checksum_of(bytes.update(at, byte).subrange(BASE_SIZE as int, bytes.len() as int))
                != checksum_of(bytes.subrange(BASE_SIZE as int, bytes.len() as int))
        }),
    ensures
        Message::parse((Message::wire_bytes(m)->Ok_0).update(at, byte)) == Err::<
            MessageView,
            SerdeErrorView,
        >(SerdeErrorView::InvalidChecksum),
{
    let payload = m.payload.wire_bytes()->Ok_0;
    let ty = m.payload.message_type();
    lemma_command_roundtrip(ty);
    lemma_envelope_parts(m.magic_bytes, ty, payload);
    let bytes = envelope_bytes(m.magic_bytes, ty, payload);
    let data = bytes.update(at, byte);
    assert(data.subrange(4, 16) =~= bytes.subrange(4, 16));
    assert(data.subrange(16, 20) =~= bytes.subrange(16, 20));
    assert(data.subrange(20, 24) =~= bytes.subrange(20, 24));
}

/// A message of a kind that is known by name but has no payload codec is
/// refused with the name of its kind, whatever its payload holds, once its
/// checksum is found right.
pub proof fn lemma_kind_without_codec_is_refused(
    magic_bytes: Seq<u8>,
    ty: MessageType,
    payload: Seq<u8>,
    rest: Seq<u8>,
)
    requires
        magic_bytes.len() == MAGIC_BYTES_LENGTH,
        payload.len() <= u32::MAX,
        ty != MessageType::Version,
        ty != MessageType::VerAck,
    ensures
        Message::parse(envelope_bytes(magic_bytes, ty, payload) + rest) == Err::<
            MessageView,
            SerdeErrorView,
        >(SerdeErrorView::UnknownType(ty.name())),
{
    lemma_command_roundtrip(ty);
    lemma_envelope_parts(magic_bytes, ty, payload);
    let bytes = envelope_bytes(magic_bytes, ty, payload);
    let data = bytes + rest;
    assert(data.subrange(4, 16) =~= bytes.subrange(4, 16));
    assert(data.subrange(16, 20) =~= bytes.subrange(16, 20));
    assert(data.subrange(20, 24) =~= bytes.subrange(20, 24));
    assert(data.subrange(BASE_SIZE as int, BASE_SIZE + payload.len()) =~= bytes.subrange(
        BASE_SIZE as int,
        bytes.len() as int,
    ));
}

} // verus!
