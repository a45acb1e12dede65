//! Properties of the wire formats, proved over the spec functions that the
//! reads' contracts use.
use vstd::prelude::*;
use vstd::utf8::{decode_utf8, valid_utf8};

use crate::bytes::{i32_be, i32_le};
use crate::decoder::{Decoder, I32Le};
use crate::error::ReadError;
use crate::reader::{array_be, array_le, array_with_length, fstring, parse_many};

verus! {

/// The `i32` values of the consecutive four-byte groups at the front of `input`.
pub open spec fn i32s_le(input: Seq<u8>, count: nat) -> Seq<i32> {
    Seq::new(count, |i: int| i32_le(input.subrange(4 * i, 4 * i + 4)))
}

/// `count` little-endian `i32` elements are the `count` four-byte groups at
/// the front of the input, read in order, and take `4 * count` bytes.
pub proof fn lemma_i32_le_elements(input: Seq<u8>, count: nat)
    requires
        input.len() >= 4 * count,
    ensures
        parse_many(&I32Le, input, count) == Ok::<(Seq<i32>, nat), ReadError>(
            (i32s_le(input, count), 4 * count),
        ),
    decreases count,
{
    if count > 0 {
        let rest = input.skip(4);
        lemma_i32_le_elements(rest, (count - 1) as nat);
        assert forall|i: int| 0 <= i < count - 1 implies #[trigger] i32s_le(
            rest,
            (count - 1) as nat,
        )[i] == i32s_le(input, count)[i + 1] by {
            assert(rest.subrange(4 * i, 4 * i + 4) =~= input.subrange(4 * (i + 1), 4 * (i + 1) + 4));
        }
        assert(seq![i32_le(input.take(4))] + i32s_le(rest, (count - 1) as nat) =~= i32s_le(
            input,
            count,
        ));
    } else {
        assert(i32s_le(input, 0) =~= seq![]);
    }
}

/// An array read with an explicit length `L` of little-endian `i32` elements
/// reads exactly `L` elements from the front, `4 * L` bytes, and no prefix.
pub proof fn lemma_array_with_length_i32_le(input: Seq<u8>, length: i32)
    requires
        0 <= length,
        input.len() >= 4 * length,
    ensures
        array_with_length(&I32Le, input, length) == Ok::<(Seq<i32>, nat), ReadError>(
            (i32s_le(input, length as nat), 4 * length as nat),
        ),
{
    lemma_i32_le_elements(input, length as nat);
}

/// An array with a little-endian count `L >= 0` followed by `4 * L` bytes of
/// little-endian `i32`s gives exactly those `L` integers in order, and takes
/// `4 + 4 * L` bytes.
pub proof fn lemma_array_le_i32_le(input: Seq<u8>)
    requires
        input.len() >= 4,
        i32_le(input.take(4)) >= 0,
        input.len() >= 4 + 4 * i32_le(input.take(4)),
    ensures
        array_le(&I32Le, input) == Ok::<(Seq<i32>, nat), ReadError>(
            (
                i32s_le(input.skip(4), i32_le(input.take(4)) as nat),
                (4 + 4 * i32_le(input.take(4))) as nat,
            ),
        ),
{
    lemma_array_with_length_i32_le(input.skip(4), i32_le(input.take(4)));
}

/// A big-endian count reads as the little-endian count with its four bytes
/// reversed: for every element decoder, the two array forms agree.
pub proof fn lemma_array_be_mirrors_le<D: Decoder>(d: &D, input: Seq<u8>)
    requires
        input.len() >= 4,
    ensures
        array_be(d, seq![input[3], input[2], input[1], input[0]] + input.skip(4)) == array_le(
            d,
            input,
        ),
{
    let mirrored = seq![input[3], input[2], input[1], input[0]] + input.skip(4);
    assert(mirrored.skip(4) =~= input.skip(4));
    assert(i32_be(mirrored.take(4)) == i32_le(input.take(4)));
}

/// A string of length 0 is empty and takes the four bytes of its length.
pub proof fn lemma_fstring_empty(input: Seq<u8>)
    requires
        input.len() >= 4,
        i32_le(input.take(4)) == 0,
    ensures
        fstring(input) == Ok::<(Seq<char>, nat), ReadError>((seq![], 4)),
{
}

/// A string of length `N > 0` whose first `N - 1` bytes are valid UTF-8,
/// followed by a zero byte, is the decoded text and takes `4 + N` bytes.
pub proof fn lemma_fstring_text(input: Seq<u8>)
    requires
        input.len() >= 4,
        i32_le(input.take(4)) > 0,
        input.len() >= 4 + i32_le(input.take(4)),
        valid_utf8(input.subrange(4, 3 + i32_le(input.take(4)))),
        input[3 + i32_le(input.take(4))] == 0,
    ensures
        fstring(input) == Ok::<(Seq<char>, nat), ReadError>(
            (
                decode_utf8(input.subrange(4, 3 + i32_le(input.take(4)))),
                (4 + i32_le(input.take(4))) as nat,
            ),
        ),
{
    let n = i32_le(input.take(4)) as int;
    assert(input.skip(4).take(n - 1) =~= input.subrange(4, 3 + n));
}

/// A string of length `N > 0` whose first `N - 1` bytes are not valid UTF-8
/// is refused as such, with no text.
pub proof fn lemma_fstring_bad_text(input: Seq<u8>)
    requires
        input.len() >= 4,
        i32_le(input.take(4)) > 0,
        input.len() >= 4 + i32_le(input.take(4)),
        !valid_utf8(input.subrange(4, 3 + i32_le(input.take(4)))),
    ensures
        fstring(input) == Err::<(Seq<char>, nat), ReadError>(ReadError::InvalidUtf8),
{
    let n = i32_le(input.take(4)) as int;
    assert(input.skip(4).take(n - 1) =~= input.subrange(4, 3 + n));
}

/// A string whose length, or whose positive length's payload, is cut short
/// fails for want of bytes.
pub proof fn lemma_fstring_truncated(input: Seq<u8>)
    requires
        input.len() < 4 || (i32_le(input.take(4)) > 0 && input.len() < 4 + i32_le(input.take(4))),
    ensures
        fstring(input) == Err::<(Seq<char>, nat), ReadError>(ReadError::UnexpectedEof),
{
}

/// Fewer than `4 * count` bytes hold no `count` little-endian `i32`s.
pub proof fn lemma_i32_le_elements_truncated(input: Seq<u8>, count: nat)
    requires
        input.len() < 4 * count,
    ensures
        parse_many(&I32Le, input, count) == Err::<(Seq<i32>, nat), ReadError>(
            ReadError::UnexpectedEof,
        ),
    decreases count,
{
    if input.len() >= 4 {
        lemma_i32_le_elements_truncated(input.skip(4), (count - 1) as nat);
    }
}

/// An array of little-endian `i32`s whose count, or whose elements, are cut
/// short fails for want of bytes, whichever byte order the count is in.
pub proof fn lemma_array_i32_le_truncated(input: Seq<u8>)
    requires
        input.len() < 4 || (i32_le(input.take(4)) >= 0 && input.len() < 4 + 4 * i32_le(
            input.take(4),
        )),
    ensures
        array_le(&I32Le, input) == Err::<(Seq<i32>, nat), ReadError>(ReadError::UnexpectedEof),
{
    if input.len() >= 4 {
        lemma_i32_le_elements_truncated(input.skip(4), i32_le(input.take(4)) as nat);
    }
}

} // verus!
