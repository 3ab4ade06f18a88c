//! Peer addresses as the wire sees them.
//!
//! An address is a number: 32 bits for IPv4, 128 bits for IPv6. On the wire
//! every address takes 16 bytes, IPv4 ones in their IPv4-mapped IPv6 form.

use crate::endian::{be_bytes, be_value, lemma_be_bytes_len, lemma_be_value_of_bytes,
    lemma_pow256_widths, read_u128_be, read_u16_be, write_u128_be, write_u16_be};
use vstd::prelude::*;

verus! {

/// The number of bytes of an address field.
pub const ADDRESS_SIZE: usize = 18;

/// The 16-byte form `::ffff:0:0` that IPv4 addresses are mapped under.
pub const IPV4_MAPPED_BASE: u128 = 0xFFFF_0000_0000;

/// An IP address, held as the number its octets spell in network order.
#[derive(Debug, Clone, Copy, PartialEq, Eq, Hash, Structural)]
pub enum IpAddress {
    V4(u32),
    V6(u128),
}

/// An IP address and a port.
#[derive(Debug, Clone, Copy, PartialEq, Eq, Hash, Structural)]
pub struct SocketAddress {
    pub ip: IpAddress,
    pub port: u16,
}

/// The number that four octets spell in network order.
pub open spec fn ipv4_bits(a: u8, b: u8, c: u8, d: u8) -> u32 {
    (a * 0x100_0000 + b * 0x1_0000 + c * 0x100 + d) as u32
}

/// Whether a 128-bit address has the IPv4-mapped form: ten zero bytes, two
/// bytes `0xFF`, then any four bytes.
pub open spec fn is_ipv4_mapped(bits: u128) -> bool {
    bits / 0x1_0000_0000 == 0xFFFF
}

/// The 128-bit number that goes on the wire for an address.
pub open spec fn wire_bits(ip: IpAddress) -> u128 {
    match ip {
        IpAddress::V4(bits) => (IPV4_MAPPED_BASE + bits) as u128,
        IpAddress::V6(bits) => bits,
    }
}

/// The address that a 128-bit number from the wire stands for.
pub open spec fn address_of_bits(bits: u128) -> IpAddress {
    if is_ipv4_mapped(bits) {
        IpAddress::V4((bits % 0x1_0000_0000) as u32)
    } else {
        IpAddress::V6(bits)
    }
}

/// An address that the wire can tell from every other one: any IPv4 address,
/// and any IPv6 address that is not of the IPv4-mapped form.
pub open spec fn is_canonical(ip: IpAddress) -> bool {
    match ip {
        IpAddress::V4(_) => true,
        IpAddress::V6(bits) => !is_ipv4_mapped(bits),
    }
}

/// The 18 bytes of an address field: 16 of IP, 2 of port, both big-endian.
pub open spec fn address_bytes(addr: SocketAddress) -> Seq<u8> {
    be_bytes(wire_bits(addr.ip) as nat, 16) + be_bytes(addr.port as nat, 2)
}

/// The address that 18 bytes of an address field stand for.
pub open spec fn parse_address(data: Seq<u8>) -> SocketAddress {
    SocketAddress {
        ip: address_of_bits(be_value(data.subrange(0, 16)) as u128),
        port: be_value(data.subrange(16, 18)) as u16,
    }
}

/// Whether 128 bits are an IPv4 address in its IPv4-mapped IPv6 form.
pub fn is_ipv4_mapped_ipv6(bits: u128) -> (mapped: bool)
    ensures
        mapped == is_ipv4_mapped(bits),
{
    bits / 0x1_0000_0000 == 0xFFFF
}

impl IpAddress {
    /// The IPv4 address `a.b.c.d`.
    pub fn v4(a: u8, b: u8, c: u8, d: u8) -> (ip: IpAddress)
        ensures
            ip == IpAddress::V4(ipv4_bits(a, b, c, d)),
    {
        IpAddress::V4(
            (a as u32) * 0x100_0000 + (b as u32) * 0x1_0000 + (c as u32) * 0x100 + (d as u32),
        )
    }

    /// The 128 bits that are written for this address.
    pub fn to_wire_bits(&self) -> (bits: u128)
        ensures
            bits == wire_bits(*self),
    {
        match self {
            IpAddress::V4(bits) => IPV4_MAPPED_BASE + (*bits as u128),
            IpAddress::V6(bits) => *bits,
        }
    }

    /// The address that 128 bits read from the wire stand for: an IPv4
    /// address where they have the IPv4-mapped form, else an IPv6 address.
    pub fn from_wire_bits(bits: u128) -> (ip: IpAddress)
        ensures
            ip == address_of_bits(bits),
            is_canonical(ip),
            wire_bits(ip) == bits,
    {
        if is_ipv4_mapped_ipv6(bits) {
            IpAddress::V4((bits % 0x1_0000_0000) as u32)
        } else {
            IpAddress::V6(bits)
        }
    }
}

impl SocketAddress {
    pub fn new(ip: IpAddress, port: u16) -> (addr: SocketAddress)
        ensures
            addr == (SocketAddress { ip, port }),
    {
        SocketAddress { ip, port }
    }

    pub fn ip(&self) -> (ip: IpAddress)
        ensures
            ip == self.ip,
    {
        self.ip
    }

    pub fn port(&self) -> (port: u16)
        ensures
            port == self.port,
    {
        self.port
    }

    /// Appends the 18 bytes of this address to `out`.
    pub fn write_to(&self, out: &mut Vec<u8>)
        ensures
            final(out)@ == old(out)@ + address_bytes(*self),
    {
        let mut ip: Vec<u8> = write_u128_be(self.ip.to_wire_bits());
        let mut port: Vec<u8> = write_u16_be(self.port);
        let ghost before = out@;
        out.append(&mut ip);
        out.append(&mut port);
        assert(out@ =~= before + address_bytes(*self));
    }

    /// Reads an address from the first 18 bytes of `data`; `None` where
    /// there are fewer.
    pub fn read_from(data: &[u8]) -> (res: Option<SocketAddress>)
        ensures
            res == (if data@.len() >= ADDRESS_SIZE {
                Some(parse_address(data@.subrange(0, ADDRESS_SIZE as int)))
            } else {
                None
            }),
            res matches Some(addr) ==> is_canonical(addr.ip),
    {
        if data.len() < ADDRESS_SIZE {
            return None;
        }
        let bits: u128 = read_u128_be(vstd::slice::slice_subrange(data, 0, 16));
        let port: u16 = read_u16_be(vstd::slice::slice_subrange(data, 16, 18));
        proof {
            let field = data@.subrange(0, ADDRESS_SIZE as int);
            assert(field.subrange(0, 16) =~= data@.subrange(0, 16));
            assert(field.subrange(16, 18) =~= data@.subrange(16, 18));
        }
        Some(SocketAddress { ip: IpAddress::from_wire_bits(bits), port })
    }
}

/// Every IPv4 address, and every IPv6 address outside the IPv4-mapped form,
/// comes back from its 128 wire bits; and every 128 bits come back from the
/// address they stand for.
pub proof fn lemma_wire_bits_roundtrip(ip: IpAddress, bits: u128)
    ensures
        is_canonical(ip) ==> address_of_bits(wire_bits(ip)) == ip,
        is_canonical(address_of_bits(bits)),
        wire_bits(address_of_bits(bits)) == bits,
{
}

/// An address field is 18 bytes long, and an address that the wire can tell
/// from the others is read back from its field unchanged.
pub proof fn lemma_address_roundtrip(addr: SocketAddress)
    ensures
        address_bytes(addr).len() == 18,
        is_canonical(addr.ip) ==> parse_address(address_bytes(addr)) == addr,
{
    let ip = be_bytes(wire_bits(addr.ip) as nat, 16);
    let port = be_bytes(addr.port as nat, 2);
    lemma_be_bytes_len(wire_bits(addr.ip) as nat, 16);
    lemma_be_bytes_len(addr.port as nat, 2);
    lemma_pow256_widths();
    lemma_be_value_of_bytes(wire_bits(addr.ip) as nat, 16);
    lemma_be_value_of_bytes(addr.port as nat, 2);
    assert(address_bytes(addr).subrange(0, 16) =~= ip);
    assert(address_bytes(addr).subrange(16, 18) =~= port);
}

} // verus!
