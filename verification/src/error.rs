//! What can go wrong while a value is written to or read from the wire.

use vstd::prelude::*;

verus! {

/// Why a value could not be encoded, or a byte string not decoded.
#[derive(Debug)]
pub enum SerdeBitcoinError {
    /// A command name, or a command field, of more than twelve bytes; holds the length.
    MessageTypeTooLong(usize),
    /// Kept for callers that match on it; no function of this crate returns it.
    Infallible,
    /// A command that is not known, or known but without a payload codec; holds its name.
    UnknownType(String),
    /// The input ended before the value was complete.
    IoError,
    /// A user agent of more than 255 bytes.
    InvalidUserAgentLength,
    /// A payload whose length does not fit the length field.
    InvalidPayloadLength,
    /// A user agent that is not UTF-8.
    FailedToParseUserAgent,
    /// Kept for callers that match on it; no function of this crate returns it.
    FailedToMapToIpv4,
    /// The checksum in the envelope is not that of the payload.
    InvalidChecksum,
}

/// The mathematical value of a `SerdeBitcoinError`.
pub enum SerdeErrorView {
    MessageTypeTooLong(nat),
    Infallible,
    UnknownType(Seq<char>),
    IoError,
    InvalidUserAgentLength,
    InvalidPayloadLength,
    FailedToParseUserAgent,
    FailedToMapToIpv4,
    InvalidChecksum,
}

impl View for SerdeBitcoinError {
    type V = SerdeErrorView;

    open spec fn view(&self) -> SerdeErrorView {
        match self {
            SerdeBitcoinError::MessageTypeTooLong(len) => SerdeErrorView::MessageTypeTooLong(
                *len as nat,
            ),
            SerdeBitcoinError::Infallible => SerdeErrorView::Infallible,
            SerdeBitcoinError::UnknownType(name) => SerdeErrorView::UnknownType(name@),
            SerdeBitcoinError::IoError => SerdeErrorView::IoError,
            SerdeBitcoinError::InvalidUserAgentLength => SerdeErrorView::InvalidUserAgentLength,
            SerdeBitcoinError::InvalidPayloadLength => SerdeErrorView::InvalidPayloadLength,
            SerdeBitcoinError::FailedToParseUserAgent => SerdeErrorView::FailedToParseUserAgent,
            SerdeBitcoinError::FailedToMapToIpv4 => SerdeErrorView::FailedToMapToIpv4,
            SerdeBitcoinError::InvalidChecksum => SerdeErrorView::InvalidChecksum,
        }
    }
}

} // verus!
