//! Fixed-width integers in both byte orders: their meaning as spec
//! functions over bytes, and the calls into byteorder that compute them.
use vstd::prelude::*;

verus! {

/// The unsigned value of four bytes, least significant first.
pub open spec fn le4(b: Seq<u8>) -> int {
    b[0] + b[1] * 0x100 + b[2] * 0x1_0000 + b[3] * 0x100_0000
}

/// The unsigned value of four bytes, most significant first.
pub open spec fn be4(b: Seq<u8>) -> int {
    b[3] + b[2] * 0x100 + b[1] * 0x1_0000 + b[0] * 0x100_0000
}

/// The unsigned value of eight bytes, least significant first.
pub open spec fn le8(b: Seq<u8>) -> int {
    le4(b) + le4(b.subrange(4, 8)) * 0x1_0000_0000
}

/// The unsigned value of eight bytes, most significant first.
pub open spec fn be8(b: Seq<u8>) -> int {
    be4(b.subrange(4, 8)) + be4(b) * 0x1_0000_0000
}

/// The two's-complement reading of a 32-bit unsigned value.
pub open spec fn signed32(u: int) -> int {
    if u < 0x8000_0000 { u } else { u - 0x1_0000_0000 }
}

/// The two's-complement reading of a 64-bit unsigned value.
pub open spec fn signed64(u: int) -> int {
    if u < 0x8000_0000_0000_0000 { u } else { u - 0x1_0000_0000_0000_0000 }
}

/// The `u32` of four little-endian bytes.
pub open spec fn u32_le(b: Seq<u8>) -> u32 {
    le4(b) as u32
}

/// The `u32` of four big-endian bytes.
pub open spec fn u32_be(b: Seq<u8>) -> u32 {
    be4(b) as u32
}

/// The `i32` of four little-endian bytes.
pub open spec fn i32_le(b: Seq<u8>) -> i32 {
    signed32(le4(b)) as i32
}

/// The `i32` of four big-endian bytes.
pub open spec fn i32_be(b: Seq<u8>) -> i32 {
    signed32(be4(b)) as i32
}

/// The `u64` of eight little-endian bytes.
pub open spec fn u64_le(b: Seq<u8>) -> u64 {
    le8(b) as u64
}

/// The `u64` of eight big-endian bytes.
pub open spec fn u64_be(b: Seq<u8>) -> u64 {
    be8(b) as u64
}

/// The `i64` of eight little-endian bytes.
pub open spec fn i64_le(b: Seq<u8>) -> i64 {
    signed64(le8(b)) as i64
}

/// The `i64` of eight big-endian bytes.
pub open spec fn i64_be(b: Seq<u8>) -> i64 {
    signed64(be8(b)) as i64
}

/// Relies on byteorder's `LittleEndian::read_u32`: the first four bytes as a
/// little-endian `u32` (it panics on fewer).
#[verifier::external_body]
pub(crate) fn decode_u32_le(b: &[u8]) -> (r: u32)
    requires
        b@.len() >= 4,
    ensures
        r == u32_le(b@),
{
    <byteorder::LittleEndian as byteorder::ByteOrder>::read_u32(b)
}

/// Relies on byteorder's `LittleEndian::read_i32`: the first 4 bytes as a
/// little-endian `i32` (it panics on fewer).
#[verifier::external_body]
pub(crate) fn decode_i32_le(b: &[u8]) -> (r: i32)
    requires
        b@.len() >= 4,
    ensures
        r == i32_le(b@),
{
    <byteorder::LittleEndian as byteorder::ByteOrder>::read_i32(b)
}

/// Relies on byteorder's `BigEndian::read_i32`: the first 4 bytes as a
/// big-endian `i32` (it panics on fewer).
#[verifier::external_body]
pub(crate) fn decode_i32_be(b: &[u8]) -> (r: i32)
    requires
        b@.len() >= 4,
    ensures
        r == i32_be(b@),
{
    <byteorder::BigEndian as byteorder::ByteOrder>::read_i32(b)
}

/// Relies on byteorder's `BigEndian::read_u32`: the first 4 bytes as a
/// big-endian `u32` (it panics on fewer).
#[verifier::external_body]
pub(crate) fn decode_u32_be(b: &[u8]) -> (r: u32)
    requires
        b@.len() >= 4,
    ensures
        r == u32_be(b@),
{
    <byteorder::BigEndian as byteorder::ByteOrder>::read_u32(b)
}

/// Relies on byteorder's `LittleEndian::read_i64`: the first 8 bytes as a
/// little-endian `i64` (it panics on fewer).
#[verifier::external_body]
pub(crate) fn decode_i64_le(b: &[u8]) -> (r: i64)
    requires
        b@.len() >= 8,
    ensures
        r == i64_le(b@),
{
    <byteorder::LittleEndian as byteorder::ByteOrder>::read_i64(b)
}

/// Relies on byteorder's `BigEndian::read_i64`: the first 8 bytes as a
/// big-endian `i64` (it panics on fewer).
#[verifier::external_body]
pub(crate) fn decode_i64_be(b: &[u8]) -> (r: i64)
    requires
        b@.len() >= 8,
    ensures
        r == i64_be(b@),
{
    <byteorder::BigEndian as byteorder::ByteOrder>::read_i64(b)
}

/// Relies on byteorder's `LittleEndian::read_u64`: the first 8 bytes as a
/// little-endian `u64` (it panics on fewer).
#[verifier::external_body]
pub(crate) fn decode_u64_le(b: &[u8]) -> (r: u64)
    requires
        b@.len() >= 8,
    ensures
        r == u64_le(b@),
{
    <byteorder::LittleEndian as byteorder::ByteOrder>::read_u64(b)
}

/// Relies on byteorder's `BigEndian::read_u64`: the first 8 bytes as a
/// big-endian `u64` (it panics on fewer).
#[verifier::external_body]
pub(crate) fn decode_u64_be(b: &[u8]) -> (r: u64)
    requires
        b@.len() >= 8,
    ensures
        r == u64_be(b@),
{
    <byteorder::BigEndian as byteorder::ByteOrder>::read_u64(b)
}

} // verus!
