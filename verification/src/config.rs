//! What a node is told before it starts: the network, and whom to serve or
//! to call.

use crate::address::{ipv4_bits, IpAddress, SocketAddress};
use vstd::prelude::*;

verus! {

/// The network that a node belongs to.
#[derive(Clone, Copy, Debug, PartialEq, Eq, Structural)]
pub enum Network {
    Mainnet,
    Testnet,
}

impl Network {
    /// Whether this is the test network.
    pub fn is_testnet(&self) -> (testnet: bool)
        ensures
            testnet == (*self == Network::Testnet),
    {
        match self {
            Network::Mainnet => false,
            Network::Testnet => true,
        }
    }
}

/// What the responder is told.
#[derive(Clone, Debug)]
pub struct ListenerConfig {
    /// The TCP port to listen on.
    pub port: u16,
    /// The network to serve.
    pub network: Network,
}

/// What the initiator is told.
#[derive(Clone, Debug)]
pub struct SenderConfig {
    /// The DNS seed that names the peers to call.
    pub dns_seed: String,
    /// The TCP port of those peers.
    pub port: u16,
    /// The network to call into.
    pub network: Network,
}

/// The whole configuration; either part may be missing.
#[derive(Clone, Debug)]
pub struct Config {
    pub listener: Option<ListenerConfig>,
    pub sender: Option<SenderConfig>,
}

/// Whether `pattern` occurs in `text` as a run of neighbouring characters.
pub open spec fn occurs_in(pattern: Seq<char>, text: Seq<char>) -> bool {
    exists|at: int|
        0 <= at <= text.len() - pattern.len() && #[trigger] text.subrange(
            at,
            at + pattern.len(),
        ) == pattern
}

/// `str::contains` of the standard library, for a pattern that is a string:
/// whether the pattern occurs in the text.
#[verifier::external_body]
fn contains_text(text: &str, pattern: &str) -> (found: bool)
    ensures
        found == occurs_in(pattern@, text@),
{
    text.contains(pattern)
}

/// The address of this machine itself, with a given port.
pub open spec fn loopback(port: u16) -> SocketAddress {
    SocketAddress { ip: IpAddress::V4(ipv4_bits(127, 0, 0, 1)), port }
}

impl SenderConfig {
    /// The peer to call where the seed names this machine: the loopback
    /// address with the configured port if `localhost` occurs in the seed,
    /// and nothing otherwise, in which case the seed is to be resolved.
    pub fn local_target(&self) -> (target: Option<SocketAddress>)
        ensures
            target == (if occurs_in("localhost"@, self.dns_seed@) {
                Some(loopback(self.port))
            } else {
                None
            }),
    {
        if contains_text(self.dns_seed.as_str(), "localhost") {
            Some(SocketAddress::new(IpAddress::v4(127, 0, 0, 1), self.port))
        } else {
            None
        }
    }
}

} // verus!
