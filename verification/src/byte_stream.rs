//! An in-memory byte source with a seekable cursor. It is the single-owner
//! resource that the scan threads through: every operation that advances the
//! cursor either borrows the stream exclusively or takes it by value.

use crate::Error;
use vstd::prelude::*;

verus! {

/// A random-access byte source together with its read/seek cursor.
#[derive(Debug)]
pub struct ByteStream {
    data: Vec<u8>,
    pos: u64,
}

impl ByteStream {
    /// The bytes this stream reads from.
    pub closed spec fn bytes(&self) -> Seq<u8> {
        self.data@
    }

    /// The current cursor position.
    pub closed spec fn cursor(&self) -> u64 {
        self.pos
    }

    /// Wraps a byte buffer as a stream with the cursor at the start.
    pub fn new(data: Vec<u8>) -> (r: ByteStream)
        ensures
            r.bytes() == data@,
            r.cursor() == 0,
    {
        ByteStream { data, pos: 0 }
    }

    /// The total number of bytes in the stream, independent of the cursor.
    pub fn len(&self) -> (r: u64)
        ensures
            r == self.bytes().len(),
    {
        self.data.len() as u64
    }

    /// The current cursor position, as an absolute offset from the start.
    pub fn position(&self) -> (r: u64)
        ensures
            r == self.cursor(),
    {
        self.pos
    }

    /// Moves the cursor to an absolute offset, which may lie past the end.
    pub fn seek_start(&mut self, pos: u64)
        ensures
            final(self).bytes() == old(self).bytes(),
            final(self).cursor() == pos,
    {
        self.pos = pos;
    }

    /// Reads exactly `n` bytes at the cursor and advances it; fails with
    /// `IoError`, leaving the stream unchanged, when fewer than `n` bytes
    /// remain.
    pub fn read_exact(&mut self, n: u64) -> (r: Result<Vec<u8>, Error>)
        ensures
            final(self).bytes() == old(self).bytes(),
            match r {
                Ok(v) => old(self).cursor() + n <= old(self).bytes().len()
                    && v@ == old(self).bytes().subrange(
                        old(self).cursor() as int,
                        old(self).cursor() + n,
                    )
                    && final(self).cursor() == old(self).cursor() + n,
                Err(e) => e == Error::IoError
                    && old(self).cursor() + n > old(self).bytes().len()
                    && final(self).cursor() == old(self).cursor(),
            },
    {
        let len = self.data.len() as u64;
        if self.pos > len || n > len - self.pos {
            return Err(Error::IoError);
        }
        let start = self.pos as usize;
        let count = n as usize;
        let mut out: Vec<u8> = Vec::new();
        let mut i: usize = 0;
        while i < count
            invariant
                i <= count,
                start + count <= self.data.len(),
                out@ == self.data@.subrange(start as int, start + i),
            decreases count - i,
        {
            out.push(self.data[start + i]);
            assert(out@ == self.data@.subrange(start as int, start + i + 1));
            i = i + 1;
        }
        self.pos = self.pos + n;
        Ok(out)
    }

    /// Advances the cursor by `n` without reading, returning the new absolute
    /// position; the cursor may end up past the end of the bytes. Fails with
    /// `IoError` only when the new position would not fit in a `u64`.
    pub fn advance(&mut self, n: u64) -> (r: Result<u64, Error>)
        ensures
            final(self).bytes() == old(self).bytes(),
            match r {
                Ok(p) => old(self).cursor() + n <= u64::MAX && p == old(self).cursor() + n
                    && final(self).cursor() == p,
                Err(e) => e == Error::IoError
                    && old(self).cursor() + n > u64::MAX
                    && final(self).cursor() == old(self).cursor(),
            },
    {
        match self.pos.checked_add(n) {
            Some(p) => {
                self.pos = p;
                Ok(p)
            },
            None => Err(Error::IoError),
        }
    }
}

} // verus!
