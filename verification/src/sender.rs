//! The initiator's side of a handshake.
//!
//! One attempt runs through three phases, each with a deadline of its own:
//! the connection is opened; our announcement is sent and the peer's is
//! awaited; our acknowledgment is sent and the peer's is awaited. A missed
//! deadline, or an answer of the wrong kind, ends the attempt. Nothing is
//! tried twice.

use crate::address::SocketAddress;
use crate::error::{SerdeBitcoinError, SerdeErrorView};
use crate::handshake::{BuildError, Outgoing};
use crate::message::{parse_message, Message};
use crate::message_type::MessageType;
use crate::version::{VersionBuilderError, VersionBuilderErrorView};
use vstd::prelude::*;

verus! {

/// The seconds that opening the connection may take.
pub const CONNECTION_TIMEOUT: u64 = 15;

/// The seconds that the exchange of announcements may take.
pub const VERSION_TIMEOUT: u64 = 30;

/// The seconds that the exchange of acknowledgments may take.
pub const VERACK_TIMEOUT: u64 = 30;

/// What a handshake that succeeded has found out.
#[derive(Debug, Clone, Copy, PartialEq, Eq, Structural)]
pub struct ConnectionInfo {
    addr: SocketAddress,
}

impl ConnectionInfo {
    /// The address of the peer that the handshake was made with.
    pub fn addr(&self) -> (addr: &SocketAddress)
        ensures
            *addr == self.target(),
    {
        &self.addr
    }

    /// The address of the peer that the handshake was made with.
    pub closed spec fn target(self) -> SocketAddress {
        self.addr
    }
}

/// Why an attempt was given up.
#[derive(Debug)]
pub enum Error {
    /// Our announcement lacks a field.
    BuildVersionPayload(VersionBuilderError),
    /// A message of ours has no encoding.
    BuildMessage(SerdeBitcoinError),
    /// What came in place of the peer's announcement is no message.
    DeserializeVersionResponse(SerdeBitcoinError),
    /// What came in place of the peer's acknowledgment is no message.
    DeserializeVerackResponse(SerdeBitcoinError),
    /// The peer's announcement did not come in time.
    VersionTimeout,
    /// The peer's acknowledgment did not come in time.
    VerackTimeout,
    /// The connection was not opened in time.
    ConnectionTimeout,
    /// The peer sent a message out of turn; holds the name of the kind that
    /// came, then that of the kind that was due.
    ReceivedWrongMessageType(String, String),
}

/// The mathematical value of an `Error`.
pub enum ErrorView {
    BuildVersionPayload(VersionBuilderErrorView),
    BuildMessage(SerdeErrorView),
    DeserializeVersionResponse(SerdeErrorView),
    DeserializeVerackResponse(SerdeErrorView),
    VersionTimeout,
    VerackTimeout,
    ConnectionTimeout,
    ReceivedWrongMessageType(Seq<char>, Seq<char>),
}

impl View for Error {
    type V = ErrorView;

    open spec fn view(&self) -> ErrorView {
        match self {
            Error::BuildVersionPayload(e) => ErrorView::BuildVersionPayload(e@),
            Error::BuildMessage(e) => ErrorView::BuildMessage(e@),
            Error::DeserializeVersionResponse(e) => ErrorView::DeserializeVersionResponse(e@),
            Error::DeserializeVerackResponse(e) => ErrorView::DeserializeVerackResponse(e@),
            Error::VersionTimeout => ErrorView::VersionTimeout,
            Error::VerackTimeout => ErrorView::VerackTimeout,
            Error::ConnectionTimeout => ErrorView::ConnectionTimeout,
            Error::ReceivedWrongMessageType(received, expected) => {
                ErrorView::ReceivedWrongMessageType(received@, expected@)
            },
        }
    }
}

/// Where an attempt stands.
#[derive(Debug, Clone, Copy, PartialEq, Eq, Structural)]
pub enum Phase {
    /// The connection is being opened.
    Connecting,
    /// Our announcement goes out; the peer's is awaited.
    AwaitingVersion,
    /// Our acknowledgment goes out; the peer's is awaited.
    AwaitingVerAck,
    /// The handshake is complete.
    Connected,
}

/// How the work of a phase ended.
#[derive(Debug, Clone, Copy)]
pub enum Outcome<'a> {
    /// The work was done in time. Holds what was read from the peer; opening
    /// the connection reads nothing.
    Completed(&'a [u8]),
    /// The deadline of the phase passed first.
    TimedOut,
}

/// The mathematical value of an `Outcome`.
pub enum OutcomeView {
    Completed(Seq<u8>),
    TimedOut,
}

impl<'a> View for Outcome<'a> {
    type V = OutcomeView;

    open spec fn view(&self) -> OutcomeView {
        match self {
            Outcome::Completed(data) => OutcomeView::Completed(data@),
            Outcome::TimedOut => OutcomeView::TimedOut,
        }
    }
}

/// The fault of a phase whose deadline passed.
pub open spec fn timeout_of(phase: Phase) -> Option<ErrorView> {
    match phase {
        Phase::Connecting => Some(ErrorView::ConnectionTimeout),
        Phase::AwaitingVersion => Some(ErrorView::VersionTimeout),
        Phase::AwaitingVerAck => Some(ErrorView::VerackTimeout),
        Phase::Connected => None,
    }
}

/// What follows what was read while a message of kind `expected` was due:
/// bytes that are no message are a fault, which `undecodable` names; a
/// message of another kind is a fault; the message that was due gives `next`.
pub open spec fn answer_model(
    data: Seq<u8>,
    expected: MessageType,
    undecodable: spec_fn(SerdeErrorView) -> ErrorView,
    next: Phase,
) -> Result<Phase, ErrorView> {
    match parse_message(data) {
        Err(e) => Err(undecodable(e)),
        Ok(message) => if message.ty != expected {
            Err(ErrorView::ReceivedWrongMessageType(message.ty.name(), expected.name()))
        } else {
            Ok(next)
        },
    }
}

/// The phase that follows `phase` once its work has ended with `outcome`, or
/// the fault that ends the attempt. A handshake that is complete stays so.
pub open spec fn advance_model(phase: Phase, outcome: OutcomeView) -> Result<Phase, ErrorView> {
    match outcome {
        OutcomeView::TimedOut => match timeout_of(phase) {
            Some(e) => Err(e),
            None => Ok(Phase::Connected),
        },
        OutcomeView::Completed(data) => match phase {
            Phase::Connecting => Ok(Phase::AwaitingVersion),
            Phase::AwaitingVersion => answer_model(
                data,
                MessageType::Version,
                |e: SerdeErrorView| ErrorView::DeserializeVersionResponse(e),
                Phase::AwaitingVerAck,
            ),
            Phase::AwaitingVerAck => answer_model(
                data,
                MessageType::VerAck,
                |e: SerdeErrorView| ErrorView::DeserializeVerackResponse(e),
                Phase::Connected,
            ),
            Phase::Connected => Ok(Phase::Connected),
        },
    }
}

/// Whether an executable step is the one the model gives.
pub open spec fn advanced_as(res: Result<Phase, Error>, model: Result<Phase, ErrorView>) -> bool {
    match res {
        Ok(phase) => model == Ok::<Phase, ErrorView>(phase),
        Err(e) => model == Err::<Phase, ErrorView>(e@),
    }
}

impl Phase {
    /// The phase in which every attempt starts.
    pub fn start() -> (phase: Phase)
        ensures
            phase == Phase::Connecting,
    {
        Phase::Connecting
    }

    /// The seconds that the work of this phase may take; `None` once the
    /// handshake is complete.
    pub fn timeout_secs(&self) -> (secs: Option<u64>)
        ensures
            secs == (match *self {
                Phase::Connecting => Some(CONNECTION_TIMEOUT),
                Phase::AwaitingVersion => Some(VERSION_TIMEOUT),
                Phase::AwaitingVerAck => Some(VERACK_TIMEOUT),
                Phase::Connected => None,
            }),
    {
        match self {
            Phase::Connecting => Some(CONNECTION_TIMEOUT),
            Phase::AwaitingVersion => Some(VERSION_TIMEOUT),
            Phase::AwaitingVerAck => Some(VERACK_TIMEOUT),
            Phase::Connected => None,
        }
    }

    /// The message that goes out at the start of this phase.
    pub fn request(&self) -> (request: Outgoing)
        ensures
            request == (match *self {
                Phase::AwaitingVersion => Outgoing::Version,
                Phase::AwaitingVerAck => Outgoing::VerAck,
                _ => Outgoing::Nothing,
            }),
    {
        match self {
            Phase::AwaitingVersion => Outgoing::Version,
            Phase::AwaitingVerAck => Outgoing::VerAck,
            _ => Outgoing::Nothing,
        }
    }

    /// What a handshake with `addr` has found out: something once it is
    /// complete, nothing before.
    pub fn conclude(&self, addr: SocketAddress) -> (info: Option<ConnectionInfo>)
        ensures
            *self == Phase::Connected ==> (info matches Some(i) && i.target() == addr),
            *self != Phase::Connected ==> info is None,
    {
        match self {
            Phase::Connected => Some(ConnectionInfo { addr }),
            _ => None,
        }
    }
}

/// Reads the answer to a message of ours and says whether it is the kind of
/// message that was due.
fn check_answer(data: &[u8], expected: MessageType) -> (res: Result<
    Result<(), SerdeBitcoinError>,
    (String, String),
>)
    ensures
        match parse_message(data@) {
            Err(e) => res matches Ok(Err(f)) && f@ == e,
            Ok(message) => if message.ty != expected {
                res matches Err((received, due)) && received@ == message.ty.name() && due@
                    == expected.name()
            } else {
                res matches Ok(Ok(_))
            },
        },
{
    let message = match Message::decode(data) {
        Ok(message) => message,
        Err(e) => {
            return Ok(Err(e));
        },
    };
    if *message.ty() != expected {
        return Err((message.ty().to_string(), expected.to_string()));
    }
    Ok(Ok(()))
}

/// Decides what follows the end of the work of a phase.
pub fn advance(phase: Phase, outcome: Outcome<'_>) -> (res: Result<Phase, Error>)
    ensures
        advanced_as(res, advance_model(phase, outcome@)),
{
    let data = match outcome {
        Outcome::Completed(data) => data,
        Outcome::TimedOut => {
            return match phase {
                Phase::Connecting => Err(Error::ConnectionTimeout),
                Phase::AwaitingVersion => Err(Error::VersionTimeout),
                Phase::AwaitingVerAck => Err(Error::VerackTimeout),
                Phase::Connected => Ok(Phase::Connected),
            };
        },
    };
    match phase {
        Phase::Connecting => Ok(Phase::AwaitingVersion),
        Phase::AwaitingVersion => match check_answer(data, MessageType::Version) {
            Ok(Ok(_)) => Ok(Phase::AwaitingVerAck),
            Ok(Err(e)) => Err(Error::DeserializeVersionResponse(e)),
            Err((received, expected)) => Err(Error::ReceivedWrongMessageType(received, expected)),
        },
        Phase::AwaitingVerAck => match check_answer(data, MessageType::VerAck) {
            Ok(Ok(_)) => Ok(Phase::Connected),
            Ok(Err(e)) => Err(Error::DeserializeVerackResponse(e)),
            Err((received, expected)) => Err(Error::ReceivedWrongMessageType(received, expected)),
        },
        Phase::Connected => Ok(Phase::Connected),
    }
}

/// The bytes that go out at the start of a phase, if any do: the
/// announcement with `target` as receiver and `local` as sender, or the
/// acknowledgment.
pub fn request_bytes(
    phase: Phase,
    target: SocketAddress,
    local: SocketAddress,
    testnet: bool,
) -> (res: Result<Option<Vec<u8>>, Error>)
    ensures
        match phase {
            Phase::AwaitingVersion => exists|now: i64, random: u64|
                res matches Ok(Some(bytes)) && bytes@
                    == #[trigger] crate::handshake::version_message_bytes(
                    target,
                    local,
                    testnet,
                    now,
                    random,
                ),
            Phase::AwaitingVerAck => res matches Ok(Some(bytes)) && bytes@
                == crate::handshake::verack_message_bytes(testnet),
            _ => res matches Ok(None),
        },
{
    let built = match phase.request() {
        Outgoing::Version => crate::handshake::version_message(target, local, testnet),
        Outgoing::VerAck => crate::handshake::verack_message(testnet),
        Outgoing::Nothing => {
            return Ok(None);
        },
    };
    match built {
        Ok(bytes) => Ok(Some(bytes)),
        Err(BuildError::Payload(e)) => Err(Error::BuildVersionPayload(e)),
        Err(BuildError::Message(e)) => Err(Error::BuildMessage(e)),
    }
}

/// A deadline that passes before the handshake is complete ends the
/// attempt with the fault of its phase, so that nothing is concluded: a peer
/// that lets the connection be opened and then stays silent costs the
/// attempt a `VersionTimeout`.
pub proof fn lemma_missed_deadline(phase: Phase)
    requires
        phase != Phase::Connected,
    ensures
        advance_model(phase, OutcomeView::TimedOut) is Err,
        advance_model(Phase::Connecting, OutcomeView::TimedOut) == Err::<Phase, ErrorView>(
            ErrorView::ConnectionTimeout,
        ),
        advance_model(Phase::AwaitingVersion, OutcomeView::TimedOut) == Err::<Phase, ErrorView>(
            ErrorView::VersionTimeout,
        ),
        advance_model(Phase::AwaitingVerAck, OutcomeView::TimedOut) == Err::<Phase, ErrorView>(
            ErrorView::VerackTimeout,
        ),
{
}

} // verus!
