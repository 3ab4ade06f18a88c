//! Wire codec and handshake rules of a peer-to-peer node.
//!
//! The crate frames messages (magic bytes, command name, length, checksum,
//! payload), encodes the two payloads a handshake needs, and decides what each
//! side of a handshake does next. Every function carries a contract that is
//! proved against a mathematical model of the wire format.

pub mod address;
pub mod checksum;
pub mod config;
pub mod endian;
pub mod error;
pub mod handshake;
pub mod listener;
pub mod message;
pub mod message_type;
pub mod padding;
pub mod sender;
pub mod serde_bitcoin;
pub mod verack;
pub mod version;

pub use crate::error::{SerdeBitcoinError, SerdeErrorView};
pub use crate::message::{Message, MessageView, Payload, PayloadView};
pub use crate::serde_bitcoin::SerdeBitcoin;
