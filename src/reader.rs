//! The reading operations, stated over the bytes that a source has yet to
//! hand out.
use vstd::prelude::*;
use vstd::utf8::{decode_utf8, valid_utf8};

use crate::bytes::{i32_be, i32_le, i64_be, i64_le, u32_be, u32_le, u64_be, u64_le};
use crate::decoder::{Decoder, I32Be, I32Le, I64Be, I64Le, U32Be, U32Le, U64Be, U64Le};
use crate::error::{ReadError, ReaderResult};
use crate::source::{fixed, reads_as, reads_view_as, ByteSource};

verus! {

/// `count` elements decoded back to back from the front of `input`, with the
/// number of bytes they take; the first element that fails fails the whole.
pub open spec fn parse_many<D: Decoder>(d: &D, input: Seq<u8>, count: nat) -> Result<
    (Seq<D::Item>, nat),
    ReadError,
>
    decreases count,
{
    if count == 0 {
        Ok((seq![], 0))
    } else {
        match d.parse(input) {
            Err(e) => Err(e),
            Ok((item, n)) => match parse_many(d, input.skip(n as int), (count - 1) as nat) {
                Err(e) => Err(e),
                Ok((rest, m)) => Ok((seq![item] + rest, n + m)),
            },
        }
    }
}

/// An array of `length` elements with no prefix; a negative length is refused.
pub open spec fn array_with_length<D: Decoder>(d: &D, input: Seq<u8>, length: i32) -> Result<
    (Seq<D::Item>, nat),
    ReadError,
> {
    if length < 0 {
        Err(ReadError::InvalidLength)
    } else {
        parse_many(d, input, length as nat)
    }
}

/// An array whose element count precedes it as a four-byte integer, read
/// with `length_of`.
pub open spec fn prefixed_array<D: Decoder>(
    d: &D,
    input: Seq<u8>,
    length_of: spec_fn(Seq<u8>) -> i32,
) -> Result<(Seq<D::Item>, nat), ReadError> {
    if input.len() < 4 {
        Err(ReadError::UnexpectedEof)
    } else {
        match array_with_length(d, input.skip(4), length_of(input.take(4))) {
            Ok((items, n)) => Ok((items, n + 4)),
            Err(e) => Err(e),
        }
    }
}

/// An array with a little-endian count.
pub open spec fn array_le<D: Decoder>(d: &D, input: Seq<u8>) -> Result<
    (Seq<D::Item>, nat),
    ReadError,
> {
    prefixed_array(d, input, |b: Seq<u8>| i32_le(b))
}

/// An array with a big-endian count.
pub open spec fn array_be<D: Decoder>(d: &D, input: Seq<u8>) -> Result<
    (Seq<D::Item>, nat),
    ReadError,
> {
    prefixed_array(d, input, |b: Seq<u8>| i32_be(b))
}

/// A length-prefixed string: a little-endian `i32` length `L`, then for
/// `L > 0` that many bytes, UTF-8 text and a final terminator byte that is
/// not looked at; `L == 0` is the empty string and a negative `L` announces
/// `-L` UTF-16 units, which are consumed and refused.
pub open spec fn fstring(input: Seq<u8>) -> Result<(Seq<char>, nat), ReadError> {
    if input.len() < 4 {
        Err(ReadError::UnexpectedEof)
    } else {
        let length = i32_le(input.take(4)) as int;
        let body = input.skip(4);
        if length == 0 {
            Ok((seq![], 4))
        } else if length == i32::MIN as int {
            Err(ReadError::MalformedLength)
        } else if length < 0 {
            if body.len() < -2 * length {
                Err(ReadError::UnexpectedEof)
            } else {
                Err(ReadError::UnsupportedEncoding)
            }
        } else if body.len() < length {
            Err(ReadError::UnexpectedEof)
        } else if !valid_utf8(body.take(length - 1)) {
            Err(ReadError::InvalidUtf8)
        } else {
            Ok((decode_utf8(body.take(length - 1)), (4 + length) as nat))
        }
    }
}

/// Relies on `String::from_utf8`: it succeeds exactly on valid UTF-8, and
/// the string then holds the characters that the bytes encode.
#[verifier::external_body]
fn utf8_string(bytes: Vec<u8>) -> (r: Option<String>)
    ensures
        match r {
            Some(s) => valid_utf8(bytes@) && s@ == decode_utf8(bytes@),
            None => !valid_utf8(bytes@),
        },
{
    String::from_utf8(bytes).ok()
}

/// The first step of decoding `count > 0` elements.
proof fn lemma_many_front<D: Decoder>(d: &D, input: Seq<u8>, count: nat)
    requires
        count > 0,
    ensures
        parse_many(d, input, count) == match d.parse(input) {
            Err(e) => Err(e),
            Ok((item, n)) => match parse_many(d, input.skip(n as int), (count - 1) as nat) {
                Err(e) => Err(e),
                Ok((rest, m)) => Ok((seq![item] + rest, n + m)),
            },
        },
{
}

/// Consuming `k` bytes and then `n` more is consuming `k + n`.
proof fn lemma_skip_skip(s: Seq<u8>, k: nat)
    requires
        k <= s.len(),
    ensures
        forall|n: nat|
            n <= s.len() - k ==> #[trigger] s.skip(k as int).skip(n as int) == s.skip((k + n) as int),
{
    assert forall|n: nat| n <= s.len() - k implies #[trigger] s.skip(k as int).skip(n as int)
        == s.skip((k + n) as int) by {
        assert(s.skip(k as int).skip(n as int) =~= s.skip((k + n) as int));
    }
}

/// Structured reads over a source that hands out bytes in order.
pub trait ReadExt: ByteSource {
    /// Reads a little-endian `i32`.
    fn read_i32_le(&mut self) -> (r: ReaderResult<i32>)
        ensures
            reads_as(
                r,
                old(self).unread(),
                final(self).unread(),
                fixed(old(self).unread(), 4, i32_le(old(self).unread().take(4))),
            ),
    {
        I32Le.decode(self)
    }

    /// Reads a little-endian `u32`.
    fn read_u32_le(&mut self) -> (r: ReaderResult<u32>)
        ensures
            reads_as(
                r,
                old(self).unread(),
                final(self).unread(),
                fixed(old(self).unread(), 4, u32_le(old(self).unread().take(4))),
            ),
    {
        U32Le.decode(self)
    }

    /// Reads a little-endian `i64`.
    fn read_i64_le(&mut self) -> (r: ReaderResult<i64>)
        ensures
            reads_as(
                r,
                old(self).unread(),
                final(self).unread(),
                fixed(old(self).unread(), 8, i64_le(old(self).unread().take(8))),
            ),
    {
        I64Le.decode(self)
    }

    /// Reads a little-endian `u64`.
    fn read_u64_le(&mut self) -> (r: ReaderResult<u64>)
        ensures
            reads_as(
                r,
                old(self).unread(),
                final(self).unread(),
                fixed(old(self).unread(), 8, u64_le(old(self).unread().take(8))),
            ),
    {
        U64Le.decode(self)
    }

    /// Reads a big-endian `i32`.
    fn read_i32_be(&mut self) -> (r: ReaderResult<i32>)
        ensures
            reads_as(
                r,
                old(self).unread(),
                final(self).unread(),
                fixed(old(self).unread(), 4, i32_be(old(self).unread().take(4))),
            ),
    {
        I32Be.decode(self)
    }

    /// Reads a big-endian `u32`.
    fn read_u32_be(&mut self) -> (r: ReaderResult<u32>)
        ensures
            reads_as(
                r,
                old(self).unread(),
                final(self).unread(),
                fixed(old(self).unread(), 4, u32_be(old(self).unread().take(4))),
            ),
    {
        U32Be.decode(self)
    }

    /// Reads a big-endian `i64`.
    fn read_i64_be(&mut self) -> (r: ReaderResult<i64>)
        ensures
            reads_as(
                r,
                old(self).unread(),
                final(self).unread(),
                fixed(old(self).unread(), 8, i64_be(old(self).unread().take(8))),
            ),
    {
        I64Be.decode(self)
    }

    /// Reads a big-endian `u64`.
    fn read_u64_be(&mut self) -> (r: ReaderResult<u64>)
        ensures
            reads_as(
                r,
                old(self).unread(),
                final(self).unread(),
                fixed(old(self).unread(), 8, u64_be(old(self).unread().take(8))),
            ),
    {
        U64Be.decode(self)
    }

    /// Decodes `length` elements back to back, with no count read first.
    fn read_array_with_length<D: Decoder>(&mut self, decoder: &D, length: i32) -> (r: ReaderResult<
        Vec<D::Item>,
    >)
        ensures
            reads_view_as(
                r,
                old(self).unread(),
                final(self).unread(),
                array_with_length(decoder, old(self).unread(), length),
            ),
            r is Ok ==> r->Ok_0@.len() == length,
    {
        if length < 0 {
            return Err(ReadError::InvalidLength);
        }
        let ghost start = self.unread();
        let ghost total = parse_many(decoder, start, length as nat);
        let mut result: Vec<D::Item> = Vec::with_capacity(length as usize);
        let mut i: i32 = 0;
        let ghost mut used: nat = 0;
        while i < length
            invariant
                0 <= i <= length,
                start == old(self).unread(),
                total == array_with_length(decoder, start, length),
                used <= start.len(),
                self.unread() == start.skip(used as int),
                result@.len() == i,
                total == match parse_many(decoder, self.unread(), (length - i) as nat) {
                    Ok((rest, m)) => Ok((result@ + rest, used + m)),
                    Err(e) => Err(e),
                },
            decreases length - i,
        {
            let ghost cur = self.unread();
            let ghost prev = result@;
            match decoder.decode(self) {
                Ok(item) => {
                    let ghost n = decoder.parse(cur)->Ok_0.1;
                    proof {
                        assert(self.unread() == start.skip((used + n) as int)) by {
                            assert(start.skip(used as int).skip(n as int) =~= start.skip((used + n) as int));
                        }
                        lemma_many_front(decoder, cur, (length - i) as nat);
                        match parse_many(decoder, self.unread(), (length - i - 1) as nat) {
                            Ok((rest, m)) => {
                                assert(prev + (seq![item] + rest) =~= prev.push(item) + rest);
                            },
                            Err(e) => {},
                        }
                        used = used + n;
                    }
                    result.push(item);
                },
                Err(e) => {
                    proof {
                        lemma_many_front(decoder, cur, (length - i) as nat);
                    }
                    return Err(e);
                },
            }
            i = i + 1;
        }
        assert(parse_many(decoder, self.unread(), 0) == Ok::<(Seq<D::Item>, nat), ReadError>((seq![], 0)));
        assert(result@ + seq![] =~= result@);
        Ok(result)
    }

    /// Reads a little-endian `i32` count, then that many elements.
    fn read_array<D: Decoder>(&mut self, decoder: &D) -> (r: ReaderResult<Vec<D::Item>>)
        ensures
            reads_view_as(r, old(self).unread(), final(self).unread(), array_le(decoder, old(self).unread())),
            r is Ok ==> r->Ok_0@.len() == i32_le(old(self).unread().take(4)),
    {
        let ghost before = self.unread();
        let length = match self.read_i32_le() {
            Ok(l) => l,
            Err(e) => return Err(e),
        };
        let r = self.read_array_with_length(decoder, length);
        proof {
            lemma_skip_skip(before, 4);
        }
        r
    }

    /// Reads a big-endian `i32` count, then that many elements.
    fn read_array_be<D: Decoder>(&mut self, decoder: &D) -> (r: ReaderResult<Vec<D::Item>>)
        ensures
            reads_view_as(r, old(self).unread(), final(self).unread(), array_be(decoder, old(self).unread())),
            r is Ok ==> r->Ok_0@.len() == i32_be(old(self).unread().take(4)),
    {
        let ghost before = self.unread();
        let length = match self.read_i32_be() {
            Ok(l) => l,
            Err(e) => return Err(e),
        };
        let r = self.read_array_with_length(decoder, length);
        proof {
            lemma_skip_skip(before, 4);
        }
        r
    }

    /// Reads a length-prefixed string. A negative length has its UTF-16
    /// payload consumed, and is then refused.
    fn read_fstring(&mut self) -> (r: ReaderResult<String>)
        ensures
            reads_view_as(r, old(self).unread(), final(self).unread(), fstring(old(self).unread())),
            r == Err::<String, ReadError>(ReadError::UnsupportedEncoding) ==> final(self).unread()
                == old(self).unread().skip(4 - 2 * i32_le(old(self).unread().take(4))),
    {
        let ghost before = self.unread();
        let length = match self.read_i32_le() {
            Ok(l) => l,
            Err(e) => return Err(e),
        };
        if length == 0 {
            return Ok(String::new());
        }
        if length == i32::MIN {
            return Err(ReadError::MalformedLength);
        }
        if length < 0 {
            let units = (0 - length) as usize;
            return match self.read_exact_bytes(units * 2) {
                Ok(_) => {
                    assert(before.skip(4).skip(units * 2) =~= before.skip(4 - 2 * length));
                    Err(ReadError::UnsupportedEncoding)
                },
                Err(e) => Err(e),
            };
        }
        let mut bytes = match self.read_exact_bytes(length as usize) {
            Ok(b) => b,
            Err(e) => return Err(e),
        };
        proof {
            assert(before.skip(4).skip(length as int) =~= before.skip(4 + length));
        }
        bytes.pop();
        assert(bytes@ =~= before.skip(4).take(length - 1));
        match utf8_string(bytes) {
            Some(s) => Ok(s),
            None => Err(ReadError::InvalidUtf8),
        }
    }
}

} // verus!
