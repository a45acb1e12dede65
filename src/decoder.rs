//! Element decoders for arrays: each decodes one value from the front of a
//! source.
use vstd::prelude::*;

use crate::bytes::{
    decode_i32_be, decode_i32_le, decode_i64_be, decode_i64_le, decode_u32_be, decode_u32_le,
    decode_u64_be, decode_u64_le, i32_be, i32_le, i64_be, i64_le, u32_be, u32_le, u64_be, u64_le,
};
use crate::error::{ReadError, ReaderResult};
use crate::source::{fixed, reads_as, ByteSource};

verus! {

/// Decodes one array element from the front of a source.
pub trait Decoder {
    type Item;

    /// The element at the front of `input` and the number of bytes it takes,
    /// or why there is none.
    spec fn parse(&self, input: Seq<u8>) -> Result<(Self::Item, nat), ReadError>;

    fn decode<S: ByteSource>(&self, source: &mut S) -> (r: ReaderResult<Self::Item>)
        ensures
            reads_as(r, old(source).unread(), final(source).unread(), self.parse(old(source).unread())),
    ;
}

/// A little-endian `i32`.
pub struct I32Le;

impl Decoder for I32Le {
    type Item = i32;

    open spec fn parse(&self, input: Seq<u8>) -> Result<(i32, nat), ReadError> {
        fixed(input, 4, i32_le(input.take(4)))
    }

    fn decode<S: ByteSource>(&self, source: &mut S) -> (r: ReaderResult<i32>) {
        let ghost before = source.unread();
        match source.read_exact_bytes(4) {
            Ok(b) => {
                let v = decode_i32_le(b.as_slice());
                assert(self.parse(before) == Ok::<(i32, nat), ReadError>((v, 4)));
                Ok(v)
            },
            Err(e) => Err(e),
        }
    }
}

/// A little-endian `u32`.
pub struct U32Le;

impl Decoder for U32Le {
    type Item = u32;

    open spec fn parse(&self, input: Seq<u8>) -> Result<(u32, nat), ReadError> {
        fixed(input, 4, u32_le(input.take(4)))
    }

    fn decode<S: ByteSource>(&self, source: &mut S) -> (r: ReaderResult<u32>) {
        let ghost before = source.unread();
        match source.read_exact_bytes(4) {
            Ok(b) => {
                let v = decode_u32_le(b.as_slice());
                assert(self.parse(before) == Ok::<(u32, nat), ReadError>((v, 4)));
                Ok(v)
            },
            Err(e) => Err(e),
        }
    }
}

/// A little-endian `i64`.
pub struct I64Le;

impl Decoder for I64Le {
    type Item = i64;

    open spec fn parse(&self, input: Seq<u8>) -> Result<(i64, nat), ReadError> {
        fixed(input, 8, i64_le(input.take(8)))
    }

    fn decode<S: ByteSource>(&self, source: &mut S) -> (r: ReaderResult<i64>) {
        let ghost before = source.unread();
        match source.read_exact_bytes(8) {
            Ok(b) => {
                let v = decode_i64_le(b.as_slice());
                assert(self.parse(before) == Ok::<(i64, nat), ReadError>((v, 8)));
                Ok(v)
            },
            Err(e) => Err(e),
        }
    }
}

/// A little-endian `u64`.
pub struct U64Le;

impl Decoder for U64Le {
    type Item = u64;

    open spec fn parse(&self, input: Seq<u8>) -> Result<(u64, nat), ReadError> {
        fixed(input, 8, u64_le(input.take(8)))
    }

    fn decode<S: ByteSource>(&self, source: &mut S) -> (r: ReaderResult<u64>) {
        let ghost before = source.unread();
        match source.read_exact_bytes(8) {
            Ok(b) => {
                let v = decode_u64_le(b.as_slice());
                assert(self.parse(before) == Ok::<(u64, nat), ReadError>((v, 8)));
                Ok(v)
            },
            Err(e) => Err(e),
        }
    }
}

/// A big-endian `i32`.
pub struct I32Be;

impl Decoder for I32Be {
    type Item = i32;

    open spec fn parse(&self, input: Seq<u8>) -> Result<(i32, nat), ReadError> {
        fixed(input, 4, i32_be(input.take(4)))
    }

    fn decode<S: ByteSource>(&self, source: &mut S) -> (r: ReaderResult<i32>) {
        let ghost before = source.unread();
        match source.read_exact_bytes(4) {
            Ok(b) => {
                let v = decode_i32_be(b.as_slice());
                assert(self.parse(before) == Ok::<(i32, nat), ReadError>((v, 4)));
                Ok(v)
            },
            Err(e) => Err(e),
        }
    }
}

/// A big-endian `u32`.
pub struct U32Be;

impl Decoder for U32Be {
    type Item = u32;

    open spec fn parse(&self, input: Seq<u8>) -> Result<(u32, nat), ReadError> {
        fixed(input, 4, u32_be(input.take(4)))
    }

    fn decode<S: ByteSource>(&self, source: &mut S) -> (r: ReaderResult<u32>) {
        let ghost before = source.unread();
        match source.read_exact_bytes(4) {
            Ok(b) => {
                let v = decode_u32_be(b.as_slice());
                assert(self.parse(before) == Ok::<(u32, nat), ReadError>((v, 4)));
                Ok(v)
            },
            Err(e) => Err(e),
        }
    }
}

/// A big-endian `i64`.
pub struct I64Be;

impl Decoder for I64Be {
    type Item = i64;

    open spec fn parse(&self, input: Seq<u8>) -> Result<(i64, nat), ReadError> {
        fixed(input, 8, i64_be(input.take(8)))
    }

    fn decode<S: ByteSource>(&self, source: &mut S) -> (r: ReaderResult<i64>) {
        let ghost before = source.unread();
        match source.read_exact_bytes(8) {
            Ok(b) => {
                let v = decode_i64_be(b.as_slice());
                assert(self.parse(before) == Ok::<(i64, nat), ReadError>((v, 8)));
                Ok(v)
            },
            Err(e) => Err(e),
        }
    }
}

/// A big-endian `u64`.
pub struct U64Be;

impl Decoder for U64Be {
    type Item = u64;

    open spec fn parse(&self, input: Seq<u8>) -> Result<(u64, nat), ReadError> {
        fixed(input, 8, u64_be(input.take(8)))
    }

    fn decode<S: ByteSource>(&self, source: &mut S) -> (r: ReaderResult<u64>) {
        let ghost before = source.unread();
        match source.read_exact_bytes(8) {
            Ok(b) => {
                let v = decode_u64_be(b.as_slice());
                assert(self.parse(before) == Ok::<(u64, nat), ReadError>((v, 8)));
                Ok(v)
            },
            Err(e) => Err(e),
        }
    }
}

} // verus!
