//! A source over bytes held in memory.
use vstd::prelude::*;

use crate::error::{ReadError, ReaderResult};
use crate::reader::ReadExt;
use crate::source::ByteSource;

verus! {

/// Bytes in memory and how many of them have been read.
pub struct ByteReader {
    data: Vec<u8>,
    pos: usize,
}

impl ByteReader {
    #[verifier::type_invariant]
    spec fn inv(&self) -> bool {
        self.pos <= self.data.len()
    }

    /// A reader at the start of `data`.
    pub fn new(data: Vec<u8>) -> (r: Self)
        ensures
            r.unread() == data@,
    {
        let r = ByteReader { data, pos: 0 };
        assert(r.data@.skip(0) =~= r.data@);
        r
    }

    /// How many bytes are left to read.
    pub fn remaining(&self) -> (r: usize)
        ensures
            r == self.unread().len(),
    {
        proof {
            use_type_invariant(self);
        }
        self.data.len() - self.pos
    }
}

impl ByteSource for ByteReader {
    closed spec fn unread(&self) -> Seq<u8> {
        self.data@.skip(self.pos as int)
    }

    fn read_exact_bytes(&mut self, n: usize) -> (r: ReaderResult<Vec<u8>>) {
        proof {
            use_type_invariant(&*self);
        }
        if n > self.data.len() - self.pos {
            return Err(ReadError::UnexpectedEof);
        }
        let mut out: Vec<u8> = Vec::with_capacity(n);
        let mut i: usize = 0;
        while i < n
            invariant
                self.pos + n <= self.data.len(),
                i <= n,
                out@ == self.data@.subrange(self.pos as int, self.pos + i),
            decreases n - i,
        {
            out.push(self.data[self.pos + i]);
            i = i + 1;
            assert(out@ =~= self.data@.subrange(self.pos as int, self.pos + i));
        }
        assert(out@ =~= self.unread().take(n as int));
        let ghost before = self.unread();
        self.pos = self.pos + n;
        assert(self.unread() =~= before.skip(n as int));
        Ok(out)
    }
}

impl ReadExt for ByteReader {}

} // verus!
