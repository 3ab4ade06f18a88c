//! The identity announcement: the payload that opens a handshake.
//!
//! Layout on the wire, in order: protocol version (4 bytes, little-endian,
//! signed), services (8, LE), timestamp (8, LE, signed), receiver services
//! (8, LE), receiver address (16 bytes of IP and 2 of port, big-endian),
//! sender services (8, LE), sender address (16 + 2, BE), nonce (8, LE), length
//! of the user agent (1), the user agent (UTF-8), start height (4, LE,
//! signed), relay flag (1).

use crate::address::{address_bytes, is_canonical, lemma_address_roundtrip, parse_address,
    SocketAddress};
use crate::endian::{le_bytes, le_value, lemma_le_bytes_len, lemma_le_value_of_bytes,
    lemma_pow256_widths, lemma_signed32_inverse, lemma_signed64_inverse, read_i32_le,
    read_i64_le, read_u64_le, signed32, signed64, unsigned32, unsigned64, write_i32_le,
    write_i64_le, write_u64_le};
use crate::error::{SerdeBitcoinError, SerdeErrorView};
use crate::serde_bitcoin::SerdeBitcoin;
use chrono::Utc;
use rand::random;
use vstd::prelude::*;
use vstd::slice::slice_subrange;
use vstd::utf8::{decode_utf8, encode_utf8, valid_utf8};

verus! {

/// The protocol version that is announced unless another is asked for.
pub const PROTOCOL_VERSION: i32 = 70016;

/// The service bits that are announced unless others are asked for.
pub const DEFAULT_SERVICES: u64 = 1;

/// The number of bytes before the length of the user agent.
pub const HEAD_SIZE: usize = 80;

/// The number of bytes after the user agent.
pub const TAIL_SIZE: usize = 5;

/// The longest user agent, in bytes, that the length byte can announce.
pub const MAX_USER_AGENT_SIZE: usize = 255;

/// What a node says of itself when a handshake opens.
#[derive(Debug, Clone, PartialEq, Eq)]
pub struct Version {
    protocol_version: i32,
    services: u64,
    timestamp: i64,
    receiver_services: u64,
    receiver_address: SocketAddress,
    sender_services: u64,
    sender_address: SocketAddress,
    nonce: u64,
    user_agent: String,
    start_height: i32,
    relay: bool,
}

/// The mathematical value of a `Version`.
pub struct VersionView {
    pub protocol_version: i32,
    pub services: u64,
    pub timestamp: i64,
    pub receiver_services: u64,
    pub receiver_address: SocketAddress,
    pub sender_services: u64,
    pub sender_address: SocketAddress,
    pub nonce: u64,
    pub user_agent: Seq<char>,
    pub start_height: i32,
    pub relay: bool,
}

impl View for Version {
    type V = VersionView;

    closed spec fn view(&self) -> VersionView {
        VersionView {
            protocol_version: self.protocol_version,
            services: self.services,
            timestamp: self.timestamp,
            receiver_services: self.receiver_services,
            receiver_address: self.receiver_address,
            sender_services: self.sender_services,
            sender_address: self.sender_address,
            nonce: self.nonce,
            user_agent: self.user_agent@,
            start_height: self.start_height,
            relay: self.relay,
        }
    }
}

/// The 80 bytes that come before the user agent.
pub open spec fn head_bytes(v: VersionView) -> Seq<u8> {
    le_bytes(unsigned32(v.protocol_version), 4) + le_bytes(v.services as nat, 8) + le_bytes(
        unsigned64(v.timestamp),
        8,
    ) + le_bytes(v.receiver_services as nat, 8) + address_bytes(v.receiver_address) + le_bytes(
        v.sender_services as nat,
        8,
    ) + address_bytes(v.sender_address) + le_bytes(v.nonce as nat, 8)
}

/// The byte that stands for the relay flag.
pub open spec fn relay_byte(relay: bool) -> u8 {
    if relay {
        1
    } else {
        0
    }
}

/// The 5 bytes that come after the user agent.
pub open spec fn tail_bytes(v: VersionView) -> Seq<u8> {
    le_bytes(unsigned32(v.start_height), 4).push(relay_byte(v.relay))
}

/// The whole payload of a value whose user agent fits the length byte.
pub open spec fn version_bytes(v: VersionView) -> Seq<u8> {
    let user_agent = encode_utf8(v.user_agent);
    head_bytes(v).push(user_agent.len() as u8) + user_agent + tail_bytes(v)
}

/// The value whose head is the first 80 bytes of `data`, whose user agent is
/// `user_agent`, and whose tail is the 5 bytes of `data` from `tail` on.
pub open spec fn parse_fields(data: Seq<u8>, user_agent: Seq<char>, tail: int) -> VersionView {
    VersionView {
        protocol_version: signed32(le_value(data.subrange(0, 4))),
        services: le_value(data.subrange(4, 12)) as u64,
        timestamp: signed64(le_value(data.subrange(12, 20))),
        receiver_services: le_value(data.subrange(20, 28)) as u64,
        receiver_address: parse_address(data.subrange(28, 46)),
        sender_services: le_value(data.subrange(46, 54)) as u64,
        sender_address: parse_address(data.subrange(54, 72)),
        nonce: le_value(data.subrange(72, 80)) as u64,
        user_agent,
        start_height: signed32(le_value(data.subrange(tail, tail + 4))),
        relay: data[tail + 4] != 0,
    }
}

/// What `data` stands for. Reading goes from the front and stops at the first
/// fault: input that ends early is an I/O error, a user agent that is not
/// UTF-8 is a parse error. Bytes after the relay flag are not looked at.
pub open spec fn parse_version(data: Seq<u8>) -> Result<VersionView, SerdeErrorView> {
    if data.len() < HEAD_SIZE + 1 {
        Err(SerdeErrorView::IoError)
    } else {
        let tail = HEAD_SIZE + 1 + data[HEAD_SIZE as int];
        if data.len() < tail {
            Err(SerdeErrorView::IoError)
        } else {
            let user_agent = data.subrange(HEAD_SIZE + 1, tail);
            if !valid_utf8(user_agent) {
                Err(SerdeErrorView::FailedToParseUserAgent)
            } else if data.len() < tail + TAIL_SIZE {
                Err(SerdeErrorView::IoError)
            } else {
                Ok(parse_fields(data, decode_utf8(user_agent), tail))
            }
        }
    }
}

/// `String::from_utf8` of the standard library: the string that `bytes`
/// encode, or `None` where they are not valid UTF-8.
#[verifier::external_body]
fn string_from_utf8(bytes: Vec<u8>) -> (res: Option<String>)
    ensures
        res is Some <==> valid_utf8(bytes@),
        res matches Some(s) ==> s@ == decode_utf8(bytes@),
{
    String::from_utf8(bytes).ok()
}

impl Version {
    /// The size of an announcement that carries the default user agent.
    pub const SIZE: usize = 100;

    /// Appends the 80 bytes that come before the user agent.
    fn write_head(&self, out: &mut Vec<u8>)
        ensures
            final(out)@ == old(out)@ + head_bytes(self@),
    {
        let ghost before = out@;
        let mut protocol_version: Vec<u8> = write_i32_le(self.protocol_version);
        let mut services: Vec<u8> = write_u64_le(self.services);
        let mut timestamp: Vec<u8> = write_i64_le(self.timestamp);
        let mut receiver_services: Vec<u8> = write_u64_le(self.receiver_services);
        let mut sender_services: Vec<u8> = write_u64_le(self.sender_services);
        let mut nonce: Vec<u8> = write_u64_le(self.nonce);
        out.append(&mut protocol_version);
        out.append(&mut services);
        out.append(&mut timestamp);
        out.append(&mut receiver_services);
        self.receiver_address.write_to(out);
        out.append(&mut sender_services);
        self.sender_address.write_to(out);
        out.append(&mut nonce);
        assert(out@ =~= before + head_bytes(self@));
    }
}

impl SerdeBitcoin for Version {
    open spec fn wire_bytes(value: VersionView) -> Result<Seq<u8>, SerdeErrorView> {
        if encode_utf8(value.user_agent).len() > MAX_USER_AGENT_SIZE {
            Err(SerdeErrorView::InvalidUserAgentLength)
        } else {
            Ok(version_bytes(value))
        }
    }

    open spec fn parse(data: Seq<u8>) -> Result<VersionView, SerdeErrorView> {
        parse_version(data)
    }

    fn serialize(&self) -> (res: Result<Vec<u8>, SerdeBitcoinError>) {
        let mut result: Vec<u8> = Vec::with_capacity(Version::SIZE);
        self.write_head(&mut result);
        let user_agent = self.user_agent.as_str().as_bytes();
        if user_agent.len() > MAX_USER_AGENT_SIZE {
            return Err(SerdeBitcoinError::InvalidUserAgentLength);
        }
        result.push(user_agent.len() as u8);
        let mut user_agent: Vec<u8> = vstd::slice::slice_to_vec(user_agent);
        result.append(&mut user_agent);
        let mut start_height: Vec<u8> = write_i32_le(self.start_height);
        result.append(&mut start_height);
        result.push(if self.relay { 1u8 } else { 0u8 });
        assert(result@ =~= version_bytes(self@));
        Ok(result)
    }

    fn deserialize(data: &mut [u8]) -> (res: Result<Version, SerdeBitcoinError>) {
        Version::decode(data)
    }
}

impl Version {
    /// Reads an announcement from the front of `data`.
    pub fn decode(data: &[u8]) -> (res: Result<Version, SerdeBitcoinError>)
        ensures
            crate::serde_bitcoin::decoded_as(res, parse_version(data@)),
    {
        if data.len() < HEAD_SIZE + 1 {
            return Err(SerdeBitcoinError::IoError);
        }
        let protocol_version: i32 = read_i32_le(slice_subrange(data, 0, 4));
        let services: u64 = read_u64_le(slice_subrange(data, 4, 12));
        let timestamp: i64 = read_i64_le(slice_subrange(data, 12, 20));
        let receiver_services: u64 = read_u64_le(slice_subrange(data, 20, 28));
        assert(data@.subrange(28, 46).subrange(0, 18) =~= data@.subrange(28, 46));
        assert(data@.subrange(54, 72).subrange(0, 18) =~= data@.subrange(54, 72));
        let receiver_address = match SocketAddress::read_from(slice_subrange(data, 28, 46)) {
            Some(address) => address,
            None => {
                return Err(SerdeBitcoinError::IoError);
            },
        };
        let sender_services: u64 = read_u64_le(slice_subrange(data, 46, 54));
        let sender_address = match SocketAddress::read_from(slice_subrange(data, 54, 72)) {
            Some(address) => address,
            None => {
                return Err(SerdeBitcoinError::IoError);
            },
        };
        let nonce: u64 = read_u64_le(slice_subrange(data, 72, 80));
        let user_agent_len: usize = data[HEAD_SIZE] as usize;
        let tail: usize = HEAD_SIZE + 1 + user_agent_len;
        if data.len() < tail {
            return Err(SerdeBitcoinError::IoError);
        }
        let user_agent_bytes: Vec<u8> = vstd::slice::slice_to_vec(
            slice_subrange(data, HEAD_SIZE + 1, tail),
        );
        let user_agent = match string_from_utf8(user_agent_bytes) {
            Some(s) => s,
            None => {
                return Err(SerdeBitcoinError::FailedToParseUserAgent);
            },
        };
        if data.len() - tail < TAIL_SIZE {
            return Err(SerdeBitcoinError::IoError);
        }
        let start_height: i32 = read_i32_le(slice_subrange(data, tail, tail + 4));
        let relay = data[tail + 4] != 0;
        Ok(
            Version {
                protocol_version,
                services,
                timestamp,
                receiver_services,
                receiver_address,
                sender_services,
                sender_address,
                nonce,
                user_agent,
                start_height,
                relay,
            },
        )
    }
}

/// A value that comes back unchanged from its bytes: the user agent fits the
/// length byte and neither address is an IPv6 address of the IPv4-mapped form.
pub open spec fn survives_the_wire(v: VersionView) -> bool {
    &&& encode_utf8(v.user_agent).len() <= MAX_USER_AGENT_SIZE
    &&& is_canonical(v.receiver_address.ip)
    &&& is_canonical(v.sender_address.ip)
}

/// The head of an announcement is 80 bytes long and each of its fields is
/// read back from its place.
pub proof fn lemma_head_fields(v: VersionView)
    ensures
        head_bytes(v).len() == HEAD_SIZE,
        head_bytes(v).subrange(0, 4) == le_bytes(unsigned32(v.protocol_version), 4),
        head_bytes(v).subrange(4, 12) == le_bytes(v.services as nat, 8),
        head_bytes(v).subrange(12, 20) == le_bytes(unsigned64(v.timestamp), 8),
        head_bytes(v).subrange(20, 28) == le_bytes(v.receiver_services as nat, 8),
        head_bytes(v).subrange(28, 46) == address_bytes(v.receiver_address),
        head_bytes(v).subrange(46, 54) == le_bytes(v.sender_services as nat, 8),
        head_bytes(v).subrange(54, 72) == address_bytes(v.sender_address),
        head_bytes(v).subrange(72, 80) == le_bytes(v.nonce as nat, 8),
{
    lemma_le_bytes_len(unsigned32(v.protocol_version), 4);
    lemma_le_bytes_len(v.services as nat, 8);
    lemma_le_bytes_len(unsigned64(v.timestamp), 8);
    lemma_le_bytes_len(v.receiver_services as nat, 8);
    lemma_address_roundtrip(v.receiver_address);
    lemma_le_bytes_len(v.sender_services as nat, 8);
    lemma_address_roundtrip(v.sender_address);
    lemma_le_bytes_len(v.nonce as nat, 8);
    let h = head_bytes(v);
    assert(h.subrange(0, 4) =~= le_bytes(unsigned32(v.protocol_version), 4));
    assert(h.subrange(4, 12) =~= le_bytes(v.services as nat, 8));
    assert(h.subrange(12, 20) =~= le_bytes(unsigned64(v.timestamp), 8));
    assert(h.subrange(20, 28) =~= le_bytes(v.receiver_services as nat, 8));
    assert(h.subrange(28, 46) =~= address_bytes(v.receiver_address));
    assert(h.subrange(46, 54) =~= le_bytes(v.sender_services as nat, 8));
    assert(h.subrange(54, 72) =~= address_bytes(v.sender_address));
    assert(h.subrange(72, 80) =~= le_bytes(v.nonce as nat, 8));
}

/// Decoding the bytes of an announcement gives the announcement back, for
/// every value whose user agent has at most 255 bytes and whose addresses the
/// wire can tell apart. Bytes that follow the announcement change nothing.
pub proof fn lemma_version_roundtrip(v: VersionView, rest: Seq<u8>)
    requires
        survives_the_wire(v),
    ensures
        Version::wire_bytes(v) == Ok::<Seq<u8>, SerdeErrorView>(version_bytes(v)),
        Version::parse(version_bytes(v) + rest) == Ok::<VersionView, SerdeErrorView>(v),
{
    broadcast use vstd::utf8::encode_utf8_valid_utf8, vstd::utf8::encode_utf8_decode_utf8;

    let user_agent = encode_utf8(v.user_agent);
    let head = head_bytes(v);
    let data = version_bytes(v) + rest;
    let tail = HEAD_SIZE + 1 + user_agent.len();
    lemma_head_fields(v);
    lemma_le_bytes_len(unsigned32(v.start_height), 4);
    assert(data.len() == tail + TAIL_SIZE + rest.len());
    assert(data[HEAD_SIZE as int] == user_agent.len() as u8);
    assert(data.subrange(HEAD_SIZE + 1, tail) =~= user_agent);
    assert(valid_utf8(user_agent));
    assert(decode_utf8(user_agent) == v.user_agent);
    assert(data.subrange(0, 4) =~= head.subrange(0, 4));
    assert(data.subrange(4, 12) =~= head.subrange(4, 12));
    assert(data.subrange(12, 20) =~= head.subrange(12, 20));
    assert(data.subrange(20, 28) =~= head.subrange(20, 28));
    assert(data.subrange(28, 46) =~= head.subrange(28, 46));
    assert(data.subrange(46, 54) =~= head.subrange(46, 54));
    assert(data.subrange(54, 72) =~= head.subrange(54, 72));
    assert(data.subrange(72, 80) =~= head.subrange(72, 80));
    assert(data.subrange(tail, tail + 4) =~= le_bytes(unsigned32(v.start_height), 4));
    assert(data[tail + 4] == relay_byte(v.relay));
    lemma_pow256_widths();
    lemma_signed32_inverse(v.protocol_version);
    lemma_signed32_inverse(v.start_height);
    lemma_signed64_inverse(v.timestamp);
    lemma_le_value_of_bytes(unsigned32(v.protocol_version), 4);
    lemma_le_value_of_bytes(v.services as nat, 8);
    lemma_le_value_of_bytes(unsigned64(v.timestamp), 8);
    lemma_le_value_of_bytes(v.receiver_services as nat, 8);
    lemma_le_value_of_bytes(v.sender_services as nat, 8);
    lemma_le_value_of_bytes(v.nonce as nat, 8);
    lemma_le_value_of_bytes(unsigned32(v.start_height), 4);
    lemma_address_roundtrip(v.receiver_address);
    lemma_address_roundtrip(v.sender_address);
}

impl Version {
    /// The protocol version that the node speaks.
    pub fn protocol_version(&self) -> (protocol_version: &i32)
        ensures
            *protocol_version == self@.protocol_version,
    {
        &self.protocol_version
    }

    /// The services that the node offers, as a bit mask.
    pub fn services(&self) -> (services: &u64)
        ensures
            *services == self@.services,
    {
        &self.services
    }

    /// When the announcement was made, in seconds since 1970.
    pub fn timestamp(&self) -> (timestamp: &i64)
        ensures
            *timestamp == self@.timestamp,
    {
        &self.timestamp
    }

    /// The services that the receiver is thought to offer.
    pub fn receiver_services(&self) -> (receiver_services: &u64)
        ensures
            *receiver_services == self@.receiver_services,
    {
        &self.receiver_services
    }

    /// The address of the node that is spoken to.
    pub fn receiver_address(&self) -> (receiver_address: &SocketAddress)
        ensures
            *receiver_address == self@.receiver_address,
    {
        &self.receiver_address
    }

    /// The services of the sender, as a bit mask.
    pub fn sender_services(&self) -> (sender_services: &u64)
        ensures
            *sender_services == self@.sender_services,
    {
        &self.sender_services
    }

    /// The address of the node that speaks.
    pub fn sender_address(&self) -> (sender_address: &SocketAddress)
        ensures
            *sender_address == self@.sender_address,
    {
        &self.sender_address
    }

    /// A number that tells this announcement from others.
    pub fn nonce(&self) -> (nonce: &u64)
        ensures
            *nonce == self@.nonce,
    {
        &self.nonce
    }

    /// The name and version of the software of the node.
    pub fn user_agent(&self) -> (user_agent: &String)
        ensures
            user_agent@ == self@.user_agent,
    {
        &self.user_agent
    }

    /// The height of the best chain that the node knows.
    pub fn start_height(&self) -> (start_height: &i32)
        ensures
            *start_height == self@.start_height,
    {
        &self.start_height
    }

    /// Whether the node wants transactions announced to it.
    pub fn relay(&self) -> (relay: &bool)
        ensures
            *relay == self@.relay,
    {
        &self.relay
    }
}

/// The user agent that is announced unless another is asked for.
pub open spec fn default_user_agent() -> Seq<char> {
    "Satoshi:0.21.0"@
}

/// Why no announcement could be built.
#[derive(Debug, Clone)]
pub enum VersionBuilderError {
    /// A field without a default was not set; holds its name.
    UninitializedField(&'static str),
    /// Kept for callers that match on it; no function of this crate returns it.
    ValidationError(String),
}

/// The mathematical value of a `VersionBuilderError`.
pub enum VersionBuilderErrorView {
    UninitializedField(Seq<char>),
    ValidationError(Seq<char>),
}

impl View for VersionBuilderError {
    type V = VersionBuilderErrorView;

    open spec fn view(&self) -> VersionBuilderErrorView {
        match self {
            VersionBuilderError::UninitializedField(name) => {
                VersionBuilderErrorView::UninitializedField(name@)
            },
            VersionBuilderError::ValidationError(text) => VersionBuilderErrorView::ValidationError(
                text@,
            ),
        }
    }
}

/// Collects the fields of an announcement. Only the two addresses must be
/// set; every other field has a default.
#[derive(Debug, Clone)]
pub struct VersionBuilder {
    protocol_version: Option<i32>,
    services: Option<u64>,
    timestamp: Option<i64>,
    receiver_services: Option<u64>,
    receiver_address: Option<SocketAddress>,
    sender_services: Option<u64>,
    sender_address: Option<SocketAddress>,
    nonce: Option<u64>,
    user_agent: Option<String>,
    start_height: Option<i32>,
    relay: Option<bool>,
}

/// The mathematical value of a `VersionBuilder`.
pub struct VersionBuilderView {
    pub protocol_version: Option<i32>,
    pub services: Option<u64>,
    pub timestamp: Option<i64>,
    pub receiver_services: Option<u64>,
    pub receiver_address: Option<SocketAddress>,
    pub sender_services: Option<u64>,
    pub sender_address: Option<SocketAddress>,
    pub nonce: Option<u64>,
    pub user_agent: Option<Seq<char>>,
    pub start_height: Option<i32>,
    pub relay: Option<bool>,
}

impl View for VersionBuilder {
    type V = VersionBuilderView;

    closed spec fn view(&self) -> VersionBuilderView {
        VersionBuilderView {
            protocol_version: self.protocol_version,
            services: self.services,
            timestamp: self.timestamp,
            receiver_services: self.receiver_services,
            receiver_address: self.receiver_address,
            sender_services: self.sender_services,
            sender_address: self.sender_address,
            nonce: self.nonce,
            user_agent: match self.user_agent {
                Some(text) => Some(text@),
                None => None,
            },
            start_height: self.start_height,
            relay: self.relay,
        }
    }
}

/// The builder in which no field is set.
pub open spec fn empty_builder() -> VersionBuilderView {
    VersionBuilderView {
            protocol_version: None,
            services: None,
            timestamp: None,
            receiver_services: None,
            receiver_address: None,
            sender_services: None,
            sender_address: None,
            nonce: None,
            user_agent: None,
            start_height: None,
            relay: None,
    }
}

/// A field as it was set, or its default.
pub open spec fn or_default<T>(field: Option<T>, default: T) -> T {
    match field {
        Some(value) => value,
        None => default,
    }
}

/// What building gives at the time `now` with the random number `random`:
/// the name of the first address that is missing, or the announcement with
/// each field as it was set or else its default. The time is the default of
/// the timestamp, the random number that of the nonce.
pub open spec fn build_model(b: VersionBuilderView, now: i64, random: u64) -> Result<
    VersionView,
    Seq<char>,
> {
    if b.receiver_address is None {
        Err("receiver_address"@)
    } else if b.sender_address is None {
        Err("sender_address"@)
    } else {
        Ok(
            VersionView {
                protocol_version: or_default(b.protocol_version, PROTOCOL_VERSION),
                services: or_default(b.services, DEFAULT_SERVICES),
                timestamp: or_default(b.timestamp, now),
                receiver_services: or_default(b.receiver_services, DEFAULT_SERVICES),
                receiver_address: b.receiver_address->Some_0,
                sender_services: or_default(b.sender_services, DEFAULT_SERVICES),
                sender_address: b.sender_address->Some_0,
                nonce: or_default(b.nonce, random),
                user_agent: or_default(b.user_agent, default_user_agent()),
                start_height: or_default(b.start_height, 0),
                relay: or_default(b.relay, false),
            },
        )
    }
}

/// Whether an executable result of building is the one the model gives.
pub open spec fn built_as(
    res: Result<Version, VersionBuilderError>,
    model: Result<VersionView, Seq<char>>,
) -> bool {
    match res {
        Ok(version) => model == Ok::<VersionView, Seq<char>>(version@),
        Err(e) => e@ == VersionBuilderErrorView::UninitializedField(model->Err_0) && model is Err,
    }
}

/// `chrono::Utc::now` and `chrono::DateTime::timestamp`: the time of the
/// system clock, in whole seconds since the start of 1970. Nothing is known
/// of the number. The outside function panics where the system clock stands
/// before 1970.
#[verifier::external_body]
fn unix_time_now() -> i64 {
    Utc::now().timestamp()
}

/// `rand::random`: a number drawn by the random generator of the thread.
/// Nothing is known of the number.
#[verifier::external_body]
fn random_nonce() -> u64 {
    random::<u64>()
}

impl Default for VersionBuilder {
    fn default() -> (builder: VersionBuilder)
        ensures
            builder@ == empty_builder(),
    {
        VersionBuilder {
            protocol_version: None,
            services: None,
            timestamp: None,
            receiver_services: None,
            receiver_address: None,
            sender_services: None,
            sender_address: None,
            nonce: None,
            user_agent: None,
            start_height: None,
            relay: None,
        }
    }
}

impl VersionBuilder {
    /// Sets `protocol_version`.
    pub fn protocol_version(self, value: i32) -> (builder: VersionBuilder)
        ensures
            builder@ == (VersionBuilderView { protocol_version: Some(value), ..self@ }),
    {
        let mut builder = self;
        builder.protocol_version = Some(value);
        builder
    }

    /// Sets `services`.
    pub fn services(self, value: u64) -> (builder: VersionBuilder)
        ensures
            builder@ == (VersionBuilderView { services: Some(value), ..self@ }),
    {
        let mut builder = self;
        builder.services = Some(value);
        builder
    }

    /// Sets `timestamp`.
    pub fn timestamp(self, value: i64) -> (builder: VersionBuilder)
        ensures
            builder@ == (VersionBuilderView { timestamp: Some(value), ..self@ }),
    {
        let mut builder = self;
        builder.timestamp = Some(value);
        builder
    }

    /// Sets `receiver_services`.
    pub fn receiver_services(self, value: u64) -> (builder: VersionBuilder)
        ensures
            builder@ == (VersionBuilderView { receiver_services: Some(value), ..self@ }),
    {
        let mut builder = self;
        builder.receiver_services = Some(value);
        builder
    }

    /// Sets `receiver_address`.
    pub fn receiver_address(self, value: SocketAddress) -> (builder: VersionBuilder)
        ensures
            builder@ == (VersionBuilderView { receiver_address: Some(value), ..self@ }),
    {
        let mut builder = self;
        builder.receiver_address = Some(value);
        builder
    }

    /// Sets `sender_services`.
    pub fn sender_services(self, value: u64) -> (builder: VersionBuilder)
        ensures
            builder@ == (VersionBuilderView { sender_services: Some(value), ..self@ }),
    {
        let mut builder = self;
        builder.sender_services = Some(value);
        builder
    }

    /// Sets `sender_address`.
    pub fn sender_address(self, value: SocketAddress) -> (builder: VersionBuilder)
        ensures
            builder@ == (VersionBuilderView { sender_address: Some(value), ..self@ }),
    {
        let mut builder = self;
        builder.sender_address = Some(value);
        builder
    }

    /// Sets `nonce`.
    pub fn nonce(self, value: u64) -> (builder: VersionBuilder)
        ensures
            builder@ == (VersionBuilderView { nonce: Some(value), ..self@ }),
    {
        let mut builder = self;
        builder.nonce = Some(value);
        builder
    }

    /// Sets `user_agent`.
    pub fn user_agent(self, value: String) -> (builder: VersionBuilder)
        ensures
            builder@ == (VersionBuilderView { user_agent: Some(value@), ..self@ }),
    {
        let mut builder = self;
        builder.user_agent = Some(value);
        builder
    }

    /// Sets `start_height`.
    pub fn start_height(self, value: i32) -> (builder: VersionBuilder)
        ensures
            builder@ == (VersionBuilderView { start_height: Some(value), ..self@ }),
    {
        let mut builder = self;
        builder.start_height = Some(value);
        builder
    }

    /// Sets `relay`.
    pub fn relay(self, value: bool) -> (builder: VersionBuilder)
        ensures
            builder@ == (VersionBuilderView { relay: Some(value), ..self@ }),
    {
        let mut builder = self;
        builder.relay = Some(value);
        builder
    }

    /// Builds the announcement at a given time and with a given random
    /// number, which stand in for the fields that were not set.
    pub fn build_with(&self, now: i64, random: u64) -> (res: Result<
        Version,
        VersionBuilderError,
    >)
        ensures
            built_as(res, build_model(self@, now, random)),
    {
        let receiver_address = match self.receiver_address {
            Some(address) => address,
            None => {
                return Err(VersionBuilderError::UninitializedField("receiver_address"));
            },
        };
        let sender_address = match self.sender_address {
            Some(address) => address,
            None => {
                return Err(VersionBuilderError::UninitializedField("sender_address"));
            },
        };
        let user_agent = match &self.user_agent {
            Some(text) => text.clone(),
            None => "Satoshi:0.21.0".to_owned(),
        };
        Ok(
            Version {
                protocol_version: match self.protocol_version {
                    Some(value) => value,
                    None => PROTOCOL_VERSION,
                },
                services: match self.services {
                    Some(value) => value,
                    None => DEFAULT_SERVICES,
                },
                timestamp: match self.timestamp {
                    Some(value) => value,
                    None => now,
                },
                receiver_services: match self.receiver_services {
                    Some(value) => value,
                    None => DEFAULT_SERVICES,
                },
                receiver_address,
                sender_services: match self.sender_services {
                    Some(value) => value,
                    None => DEFAULT_SERVICES,
                },
                sender_address,
                nonce: match self.nonce {
                    Some(value) => value,
                    None => random,
                },
                user_agent,
                start_height: match self.start_height {
                    Some(value) => value,
                    None => 0,
                },
                relay: match self.relay {
                    Some(value) => value,
                    None => false,
                },
            },
        )
    }

    /// Builds the announcement. The clock is read where no timestamp was
    /// set, a random number is drawn where no nonce was set.
    pub fn build(&self) -> (res: Result<Version, VersionBuilderError>)
        ensures
            exists|now: i64, random: u64| built_as(res, #[trigger] build_model(self@, now, random)),
    {
        let now: i64 = match self.timestamp {
            Some(value) => value,
            None => unix_time_now(),
        };
        let random: u64 = match self.nonce {
            Some(value) => value,
            None => random_nonce(),
        };
        self.build_with(now, random)
    }
}

} // verus!
