//! The responder's side of a handshake.
//!
//! A peer that was never heard of has no connection. Its identity
//! announcement is answered with our own, and the peer is then connecting.
//! Its acknowledgment is answered with ours, and the peer is connected. From
//! then on every message that decodes is accepted and changes nothing.

use crate::address::SocketAddress;
use crate::error::{SerdeBitcoinError, SerdeErrorView};
use crate::handshake::{BuildError, Outgoing};
use crate::message::{parse_message, Message};
use crate::message_type::MessageType;
use crate::version::{VersionBuilderError, VersionBuilderErrorView};
use dashmap::DashMap;
use vstd::prelude::*;

verus! {

/// How far the handshake with a peer has come.
#[derive(Debug, Clone, Copy, PartialEq, Eq, Structural)]
pub enum ConnectionStatus {
    /// Nothing was exchanged yet.
    NoConnection,
    /// Our announcement was sent; the peer's acknowledgment is awaited.
    Connecting,
    /// The handshake is complete.
    Connected,
}

impl Default for ConnectionStatus {
    fn default() -> (status: ConnectionStatus)
        ensures
            status == ConnectionStatus::NoConnection,
    {
        ConnectionStatus::NoConnection
    }
}

/// Why the handshake with a peer was given up.
#[derive(Debug)]
pub enum Error {
    /// Our announcement lacks a field.
    BuildVersionPayload(VersionBuilderError),
    /// A message of ours has no encoding.
    BuildMessage(SerdeBitcoinError),
    /// What the peer sent is no message.
    DeserializeVersionResponse(SerdeBitcoinError),
    /// The peer sent a message out of turn; holds the name of the kind that
    /// came, then that of the kind that was due.
    ReceivedWrongMessageType(String, String),
}

/// The mathematical value of an `Error`.
pub enum ErrorView {
    BuildVersionPayload(VersionBuilderErrorView),
    BuildMessage(SerdeErrorView),
    DeserializeVersionResponse(SerdeErrorView),
    ReceivedWrongMessageType(Seq<char>, Seq<char>),
}

impl View for Error {
    type V = ErrorView;

    open spec fn view(&self) -> ErrorView {
        match self {
            Error::BuildVersionPayload(e) => ErrorView::BuildVersionPayload(e@),
            Error::BuildMessage(e) => ErrorView::BuildMessage(e@),
            Error::DeserializeVersionResponse(e) => ErrorView::DeserializeVersionResponse(e@),
            Error::ReceivedWrongMessageType(received, expected) => {
                ErrorView::ReceivedWrongMessageType(received@, expected@)
            },
        }
    }
}

/// What the responder does after it has read from a peer.
#[derive(Debug, Clone, Copy, PartialEq, Eq, Structural)]
pub enum Step {
    /// The peer has closed the connection: the task ends in peace.
    Closed,
    /// The peer is owed `reply`, and once that is sent its status is `status`.
    Advance { status: ConnectionStatus, reply: Outgoing },
}

/// The kind of message that is due from a peer of a given status, if one is.
pub open spec fn due(status: ConnectionStatus) -> Option<MessageType> {
    match status {
        ConnectionStatus::NoConnection => Some(MessageType::Version),
        ConnectionStatus::Connecting => Some(MessageType::VerAck),
        ConnectionStatus::Connected => None,
    }
}

/// What follows a message of kind `received` from a peer of status `status`.
pub open spec fn respond_model(status: ConnectionStatus, received: MessageType) -> Result<
    Step,
    ErrorView,
> {
    match due(status) {
        Some(expected) => if received != expected {
            Err(ErrorView::ReceivedWrongMessageType(received.name(), expected.name()))
        } else {
            match status {
                ConnectionStatus::NoConnection => Ok(
                    Step::Advance { status: ConnectionStatus::Connecting, reply: Outgoing::Version },
                ),
                _ => Ok(
                    Step::Advance { status: ConnectionStatus::Connected, reply: Outgoing::VerAck },
                ),
            }
        },
        None => Ok(Step::Advance { status: ConnectionStatus::Connected, reply: Outgoing::Nothing }),
    }
}

/// What follows the bytes `data` read from a peer of status `status`: no
/// bytes mean that the peer has closed; bytes that are no message end the
/// handshake with the fault of the decoder; a message is answered by its kind.
pub open spec fn receive_model(status: ConnectionStatus, data: Seq<u8>) -> Result<
    Step,
    ErrorView,
> {
    if data.len() == 0 {
        Ok(Step::Closed)
    } else {
        match parse_message(data) {
            Err(e) => Err(ErrorView::DeserializeVersionResponse(e)),
            Ok(message) => respond_model(status, message.ty),
        }
    }
}

/// Whether an executable step is the one the model gives.
pub open spec fn stepped_as(res: Result<Step, Error>, model: Result<Step, ErrorView>) -> bool {
    match res {
        Ok(step) => model == Ok::<Step, ErrorView>(step),
        Err(e) => model == Err::<Step, ErrorView>(e@),
    }
}

/// The status of a peer as it was found, or that of a peer never heard of.
pub fn status_or_default(found: Option<ConnectionStatus>) -> (status: ConnectionStatus)
    ensures
        status == (match found {
            Some(status) => status,
            None => ConnectionStatus::NoConnection,
        }),
{
    match found {
        Some(status) => status,
        None => ConnectionStatus::default(),
    }
}

/// Decides what follows a message of kind `received` from a peer of status
/// `status`.
pub fn respond(status: ConnectionStatus, received: &MessageType) -> (res: Result<Step, Error>)
    ensures
        stepped_as(res, respond_model(status, *received)),
{
    match status {
        ConnectionStatus::NoConnection => {
            if *received != MessageType::Version {
                return Err(
                    Error::ReceivedWrongMessageType(
                        received.to_string(),
                        MessageType::Version.to_string(),
                    ),
                );
            }
            Ok(Step::Advance { status: ConnectionStatus::Connecting, reply: Outgoing::Version })
        },
        ConnectionStatus::Connecting => {
            if *received != MessageType::VerAck {
                return Err(
                    Error::ReceivedWrongMessageType(
                        received.to_string(),
                        MessageType::VerAck.to_string(),
                    ),
                );
            }
            Ok(Step::Advance { status: ConnectionStatus::Connected, reply: Outgoing::VerAck })
        },
        ConnectionStatus::Connected => Ok(
            Step::Advance { status: ConnectionStatus::Connected, reply: Outgoing::Nothing },
        ),
    }
}

/// Decides what follows the bytes `data` read from a peer of status `status`.
pub fn receive(status: ConnectionStatus, data: &[u8]) -> (res: Result<Step, Error>)
    ensures
        stepped_as(res, receive_model(status, data@)),
{
    if data.len() == 0 {
        return Ok(Step::Closed);
    }
    let message = match Message::decode(data) {
        Ok(message) => message,
        Err(e) => {
            return Err(Error::DeserializeVersionResponse(e));
        },
    };
    respond(status, message.ty())
}

/// The bytes that are owed to a peer, if any are: the announcement with the
/// peer as receiver and `local` as sender, or the acknowledgment.
pub fn reply_bytes(
    reply: Outgoing,
    peer: SocketAddress,
    local: SocketAddress,
    testnet: bool,
) -> (res: Result<Option<Vec<u8>>, Error>)
    ensures
        match reply {
            Outgoing::Version => exists|now: i64, random: u64|
                res matches Ok(Some(bytes)) && bytes@
                    == #[trigger] crate::handshake::version_message_bytes(
                    peer,
                    local,
                    testnet,
                    now,
                    random,
                ),
            Outgoing::VerAck => res matches Ok(Some(bytes)) && bytes@
                == crate::handshake::verack_message_bytes(testnet),
            Outgoing::Nothing => res matches Ok(None),
        },
{
    let built = match reply {
        Outgoing::Version => crate::handshake::version_message(peer, local, testnet),
        Outgoing::VerAck => crate::handshake::verack_message(testnet),
        Outgoing::Nothing => {
            return Ok(None);
        },
    };
    match built {
        Ok(bytes) => Ok(Some(bytes)),
        Err(BuildError::Payload(e)) => Err(Error::BuildVersionPayload(e)),
        Err(BuildError::Message(e)) => Err(Error::BuildMessage(e)),
    }
}

/// `dashmap::DashMap`: a map that many tasks read and write at once. The
/// verifier knows it as a type and nothing of what it holds.
#[verifier::external_type_specification]
#[verifier::external_body]
#[verifier::reject_recursive_types(K)]
#[verifier::reject_recursive_types(V)]
#[verifier::reject_recursive_types(S)]
pub struct ExDashMap<K, V, S>(DashMap<K, V, S>);

/// `dashmap::DashMap::new`: a map without entries.
#[verifier::external_body]
fn new_map() -> DashMap<SocketAddress, ConnectionStatus> {
    DashMap::new()
}

/// `dashmap::DashMap::get`: the status that the map holds for `peer` at the
/// moment of the call. Other tasks write to the map, so nothing is known of
/// what comes back.
#[verifier::external_body]
fn lookup(map: &DashMap<SocketAddress, ConnectionStatus>, peer: &SocketAddress) -> Option<
    ConnectionStatus,
> {
    map.get(peer).map(|entry| *entry.value())
}

/// `dashmap::DashMap::insert`: makes `status` the status that the map holds
/// for `peer`, whatever it held before.
#[verifier::external_body]
fn store(map: &DashMap<SocketAddress, ConnectionStatus>, peer: SocketAddress, status: ConnectionStatus) {
    map.insert(peer, status);
}

/// The status of every peer, shared by the tasks that serve them.
///
/// Every task reads and writes the table through a shared reference, so what
/// it holds may change between any two calls. The contracts of its methods
/// therefore promise nothing of what it holds; what is decided from a status
/// that was read is stated by `status_or_default`, `respond` and `receive`.
pub struct Connections {
    map: DashMap<SocketAddress, ConnectionStatus>,
}

impl Connections {
    /// A table that has heard of no peer.
    pub fn new() -> Connections {
        Connections { map: new_map() }
    }

    /// The status of `peer` at this moment: what the table holds for it, or
    /// `NoConnection` where it holds nothing, as `status_or_default` says.
    pub fn status(&self, peer: &SocketAddress) -> ConnectionStatus {
        status_or_default(lookup(&self.map, peer))
    }

    /// Records the status of `peer`.
    pub fn record(&self, peer: SocketAddress, status: ConnectionStatus) {
        store(&self.map, peer, status)
    }
}

/// The course of a handshake: an announcement from a peer without a
/// connection is answered with ours and makes the peer connecting; an
/// acknowledgment from a connecting peer is answered with ours and makes it
/// connected; whatever a connected peer sends changes nothing and is owed
/// nothing.
pub proof fn lemma_course_of_a_handshake(later: MessageType)
    ensures
        respond_model(ConnectionStatus::NoConnection, MessageType::Version) == Ok::<
            Step,
            ErrorView,
        >(Step::Advance { status: ConnectionStatus::Connecting, reply: Outgoing::Version }),
        respond_model(ConnectionStatus::Connecting, MessageType::VerAck) == Ok::<Step, ErrorView>(
            Step::Advance { status: ConnectionStatus::Connected, reply: Outgoing::VerAck },
        ),
        respond_model(ConnectionStatus::Connected, later) == Ok::<Step, ErrorView>(
            Step::Advance { status: ConnectionStatus::Connected, reply: Outgoing::Nothing },
        ),
{
}

/// A message out of turn ends the handshake with the names of the kind that
/// came and of the kind that was due. So an acknowledgment from a peer
/// without a connection is refused as `verack` where `version` was due.
pub proof fn lemma_message_out_of_turn(status: ConnectionStatus, received: MessageType)
    requires
        due(status) matches Some(expected) && expected != received,
    ensures
        respond_model(status, received) == Err::<Step, ErrorView>(
            ErrorView::ReceivedWrongMessageType(received.name(), (due(status)->Some_0).name()),
        ),
        respond_model(ConnectionStatus::NoConnection, MessageType::VerAck) == Err::<
            Step,
            ErrorView,
        >(ErrorView::ReceivedWrongMessageType("verack"@, "version"@)),
{
}

} // verus!
