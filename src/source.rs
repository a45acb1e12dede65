//! A source of bytes handed out in order, and how the outcome of a read is
//! stated against it.
use vstd::prelude::*;

use crate::error::{ReadError, ReaderResult};

verus! {

/// A read of `width` bytes that mean `value`: it fails when fewer remain.
pub open spec fn fixed<T>(input: Seq<u8>, width: nat, value: T) -> Result<(T, nat), ReadError> {
    if input.len() < width {
        Err(ReadError::UnexpectedEof)
    } else {
        Ok((value, width))
    }
}

/// `r` is the outcome `expected` foretells for a source holding `before`;
/// on success `n` bytes were consumed, which leaves `after`.
pub open spec fn reads_as<T>(
    r: ReaderResult<T>,
    before: Seq<u8>,
    after: Seq<u8>,
    expected: Result<(T, nat), ReadError>,
) -> bool {
    match expected {
        Ok((v, n)) => r == Ok::<T, ReadError>(v) && n <= before.len() && after == before.skip(
            n as int,
        ),
        Err(e) => r == Err::<T, ReadError>(e),
    }
}

/// As `reads_as`, for a result known through its view.
pub open spec fn reads_view_as<T: View>(
    r: ReaderResult<T>,
    before: Seq<u8>,
    after: Seq<u8>,
    expected: Result<(T::V, nat), ReadError>,
) -> bool {
    match expected {
        Ok((v, n)) => r is Ok && r->Ok_0@ == v && n <= before.len() && after == before.skip(
            n as int,
        ),
        Err(e) => r == Err::<T, ReadError>(e),
    }
}

/// A source that hands out its bytes in order.
pub trait ByteSource: Sized {
    /// The bytes that the source has yet to hand out.
    spec fn unread(&self) -> Seq<u8>;

    /// Consumes exactly `n` bytes and returns them.
    fn read_exact_bytes(&mut self, n: usize) -> (r: ReaderResult<Vec<u8>>)
        ensures
            reads_view_as(
                r,
                old(self).unread(),
                final(self).unread(),
                fixed(old(self).unread(), n as nat, old(self).unread().take(n as int)),
            ),
    ;
}

} // verus!
