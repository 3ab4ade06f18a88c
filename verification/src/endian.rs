//! Fixed-width integers as byte strings, in both byte orders.
//!
//! The model is a base-256 numeral: `le_value` and `be_value` read one,
//! `le_bytes` and `be_bytes` write one of a given length. The conversions
//! themselves are done by the `byteorder` crate.

use byteorder::{BigEndian, ByteOrder, LittleEndian};
use vstd::prelude::*;

verus! {

/// 256 to the power `len`: the number of byte strings of that length.
pub open spec fn pow256(len: nat) -> nat
    decreases len,
{
    if len == 0 {
        1
    } else {
        256 * pow256((len - 1) as nat)
    }
}

/// The number that `bytes` spells with its least significant byte first.
pub open spec fn le_value(bytes: Seq<u8>) -> nat
    decreases bytes.len(),
{
    if bytes.len() == 0 {
        0
    } else {
        bytes[0] as nat + 256 * le_value(bytes.drop_first())
    }
}

/// The number that `bytes` spells with its most significant byte first.
pub open spec fn be_value(bytes: Seq<u8>) -> nat
    decreases bytes.len(),
{
    if bytes.len() == 0 {
        0
    } else {
        256 * be_value(bytes.drop_last()) + bytes.last() as nat
    }
}

/// The `len` low-order base-256 digits of `n`, least significant first.
pub open spec fn le_bytes(n: nat, len: nat) -> Seq<u8>
    decreases len,
{
    if len == 0 {
        Seq::empty()
    } else {
        seq![(n % 256) as u8] + le_bytes(n / 256, (len - 1) as nat)
    }
}

/// The `len` low-order base-256 digits of `n`, most significant first.
pub open spec fn be_bytes(n: nat, len: nat) -> Seq<u8>
    decreases len,
{
    if len == 0 {
        Seq::empty()
    } else {
        be_bytes(n / 256, (len - 1) as nat).push((n % 256) as u8)
    }
}

/// The unsigned number with the same 32 bits as `x` in two's complement.
pub open spec fn unsigned32(x: i32) -> nat {
    if x >= 0 {
        x as nat
    } else {
        (x + 0x1_0000_0000) as nat
    }
}

/// The signed number with the same 32 bits as `n`.
pub open spec fn signed32(n: nat) -> i32 {
    if n < 0x8000_0000 {
        n as i32
    } else {
        (n - 0x1_0000_0000) as i32
    }
}

/// The unsigned number with the same 64 bits as `x` in two's complement.
pub open spec fn unsigned64(x: i64) -> nat {
    if x >= 0 {
        x as nat
    } else {
        (x + 0x1_0000_0000_0000_0000) as nat
    }
}

/// The signed number with the same 64 bits as `n`.
pub open spec fn signed64(n: nat) -> i64 {
    if n < 0x8000_0000_0000_0000 {
        n as i64
    } else {
        (n - 0x1_0000_0000_0000_0000) as i64
    }
}

/// `le_bytes` yields exactly `len` bytes.
pub proof fn lemma_le_bytes_len(n: nat, len: nat)
    ensures
        le_bytes(n, len).len() == len,
    decreases len,
{
    if len > 0 {
        lemma_le_bytes_len(n / 256, (len - 1) as nat);
    }
}

/// `be_bytes` yields exactly `len` bytes.
pub proof fn lemma_be_bytes_len(n: nat, len: nat)
    ensures
        be_bytes(n, len).len() == len,
    decreases len,
{
    if len > 0 {
        lemma_be_bytes_len(n / 256, (len - 1) as nat);
    }
}

/// Reading back what was written gives the number, if it fits in `len` bytes.
pub proof fn lemma_le_value_of_bytes(n: nat, len: nat)
    requires
        n < pow256(len),
    ensures
        le_value(le_bytes(n, len)) == n,
    decreases len,
{
    if len > 0 {
        let rest = le_bytes(n / 256, (len - 1) as nat);
        lemma_le_value_of_bytes(n / 256, (len - 1) as nat);
        assert(le_bytes(n, len).drop_first() =~= rest);
    }
}

/// Reading back what was written gives the number, if it fits in `len` bytes.
pub proof fn lemma_be_value_of_bytes(n: nat, len: nat)
    requires
        n < pow256(len),
    ensures
        be_value(be_bytes(n, len)) == n,
    decreases len,
{
    if len > 0 {
        let rest = be_bytes(n / 256, (len - 1) as nat);
        lemma_be_value_of_bytes(n / 256, (len - 1) as nat);
        assert(be_bytes(n, len).drop_last() =~= rest);
    }
}

/// A signed number comes back from the unsigned one with the same 32 bits.
pub proof fn lemma_signed32_inverse(x: i32)
    ensures
        unsigned32(x) < 0x1_0000_0000,
        signed32(unsigned32(x)) == x,
{
}

/// A signed number comes back from the unsigned one with the same 64 bits.
pub proof fn lemma_signed64_inverse(x: i64)
    ensures
        unsigned64(x) < 0x1_0000_0000_0000_0000,
        signed64(unsigned64(x)) == x,
{
}

/// The sizes of the integer widths on the wire.
pub proof fn lemma_pow256_widths()
    ensures
        pow256(1) == 0x100,
        pow256(2) == 0x1_0000,
        pow256(4) == 0x1_0000_0000,
        pow256(8) == 0x1_0000_0000_0000_0000,
        pow256(16) == 0x1_0000_0000_0000_0000_0000_0000_0000_0000,
{
    reveal_with_fuel(pow256, 17);
}

/// `byteorder::BigEndian::read_u16`: the two bytes of `buf` read as a
/// big-endian number. The outside function panics on a shorter buffer.
#[verifier::external_body]
pub(crate) fn read_u16_be(buf: &[u8]) -> (n: u16)
    requires
        buf@.len() == 2,
    ensures
        n as nat == be_value(buf@),
{
    BigEndian::read_u16(buf)
}

/// `byteorder::LittleEndian::read_u32`: the four bytes of `buf` read as a
/// little-endian number. The outside function panics on a shorter buffer.
#[verifier::external_body]
pub(crate) fn read_u32_le(buf: &[u8]) -> (n: u32)
    requires
        buf@.len() == 4,
    ensures
        n as nat == le_value(buf@),
{
    LittleEndian::read_u32(buf)
}

/// `byteorder::LittleEndian::read_i32`: the four bytes of `buf` read as a
/// little-endian two's-complement number. The outside function panics on a shorter buffer.
#[verifier::external_body]
pub(crate) fn read_i32_le(buf: &[u8]) -> (n: i32)
    requires
        buf@.len() == 4,
    ensures
        n == signed32(le_value(buf@)),
{
    LittleEndian::read_i32(buf)
}

/// `byteorder::LittleEndian::read_u64`: the eight bytes of `buf` read as a
/// little-endian number. The outside function panics on a shorter buffer.
#[verifier::external_body]
pub(crate) fn read_u64_le(buf: &[u8]) -> (n: u64)
    requires
        buf@.len() == 8,
    ensures
        n as nat == le_value(buf@),
{
    LittleEndian::read_u64(buf)
}

/// `byteorder::LittleEndian::read_i64`: the eight bytes of `buf` read as a
/// little-endian two's-complement number. The outside function panics on a shorter buffer.
#[verifier::external_body]
pub(crate) fn read_i64_le(buf: &[u8]) -> (n: i64)
    requires
        buf@.len() == 8,
    ensures
        n == signed64(le_value(buf@)),
{
    LittleEndian::read_i64(buf)
}

/// `byteorder::BigEndian::read_u128`: the sixteen bytes of `buf` read as a
/// big-endian number. The outside function panics on a shorter buffer.
#[verifier::external_body]
pub(crate) fn read_u128_be(buf: &[u8]) -> (n: u128)
    requires
        buf@.len() == 16,
    ensures
        n as nat == be_value(buf@),
{
    BigEndian::read_u128(buf)
}

/// `byteorder::BigEndian::write_u16`: the two bytes that spell `n` in
/// big-endian order.
#[verifier::external_body]
pub(crate) fn write_u16_be(n: u16) -> (out: Vec<u8>)
    ensures
        out@ == be_bytes(n as nat, 2),
{
    let mut out: Vec<u8> = vec![0u8; 2];
    BigEndian::write_u16(&mut out, n);
    out
}

/// `byteorder::LittleEndian::write_u32`: the four bytes that spell `n` in
/// little-endian order.
#[verifier::external_body]
pub(crate) fn write_u32_le(n: u32) -> (out: Vec<u8>)
    ensures
        out@ == le_bytes(n as nat, 4),
{
    let mut out: Vec<u8> = vec![0u8; 4];
    LittleEndian::write_u32(&mut out, n);
    out
}

/// `byteorder::LittleEndian::write_i32`: the four bytes that spell `n` in
/// little-endian order, in two's complement.
#[verifier::external_body]
pub(crate) fn write_i32_le(n: i32) -> (out: Vec<u8>)
    ensures
        out@ == le_bytes(unsigned32(n), 4),
{
    let mut out: Vec<u8> = vec![0u8; 4];
    LittleEndian::write_i32(&mut out, n);
    out
}

/// `byteorder::LittleEndian::write_u64`: the eight bytes that spell `n` in
/// little-endian order.
#[verifier::external_body]
pub(crate) fn write_u64_le(n: u64) -> (out: Vec<u8>)
    ensures
        out@ == le_bytes(n as nat, 8),
{
    let mut out: Vec<u8> = vec![0u8; 8];
    LittleEndian::write_u64(&mut out, n);
    out
}

/// `byteorder::LittleEndian::write_i64`: the eight bytes that spell `n` in
/// little-endian order, in two's complement.
#[verifier::external_body]
pub(crate) fn write_i64_le(n: i64) -> (out: Vec<u8>)
    ensures
        out@ == le_bytes(unsigned64(n), 8),
{
    let mut out: Vec<u8> = vec![0u8; 8];
    LittleEndian::write_i64(&mut out, n);
    out
}

/// `byteorder::BigEndian::write_u128`: the sixteen bytes that spell `n` in
/// big-endian order.
#[verifier::external_body]
pub(crate) fn write_u128_be(n: u128) -> (out: Vec<u8>)
    ensures
        out@ == be_bytes(n as nat, 16),
{
    let mut out: Vec<u8> = vec![0u8; 16];
    BigEndian::write_u128(&mut out, n);
    out
}

} // verus!
