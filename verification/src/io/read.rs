//! Non-blocking byte reader.

use vstd::prelude::*;

use crate::Error;

verus! {

/// Non-blocking reader trait.
pub trait Read {
    /// An enumeration of possible errors.
    ///
    /// May be `core::convert::Infallible` for infallible implementations.
    type Error;

    /// Pulls some bytes from this source into the specified buffer,
    /// returning how many bytes were read.
    ///
    /// If the object needs to block for a read it returns
    /// `Err(Error::WouldBlock)`.
    ///
    /// A return value of `Ok(n)` guarantees `0 <= n <= buf.len()`: the
    /// first `n` bytes of `buf` have been filled in with data from this
    /// source and the rest of the buffer is left as it was. If `n == 0` and
    /// the buffer is non-empty, the reader has run out of data and will not
    /// be able to service any future read.
    fn read(&mut self, buf: &mut Vec<u8>) -> (r: Result<usize, Error<Self::Error>>)
        ensures
            final(buf)@.len() == old(buf)@.len(),
            r matches Ok(n) ==> n <= old(buf)@.len() && (forall|i: int|
                n <= i < old(buf)@.len() ==> final(buf)@[i] == old(buf)@[i]),
    ;
}

impl<'a, R: Read> Read for &'a mut R {
    type Error = R::Error;

    fn read(&mut self, buf: &mut Vec<u8>) -> (r: Result<usize, Error<R::Error>>) {
        (**self).read(buf)
    }
}

/// A reader over an in-memory buffer of bytes: the analogue of reading from
/// a byte slice, infallible and never blocking.
///
/// Each read copies as many bytes as both the destination and the unread
/// data allow and advances past them; once the data is exhausted every read
/// reports `Ok(0)`.
pub struct SliceReader {
    /// The data the reader serves.
    pub data: Vec<u8>,
    /// How many bytes have been read so far.
    pub pos: usize,
}

impl SliceReader {
    /// How many bytes are left to read.
    pub open spec fn readable(&self) -> nat {
        if self.pos <= self.data@.len() {
            (self.data@.len() - self.pos) as nat
        } else {
            0
        }
    }

    /// A reader that serves the given bytes from the start.
    pub fn new(data: Vec<u8>) -> (r: SliceReader)
        ensures
            r.data == data,
            r.pos == 0,
    {
        SliceReader { data, pos: 0 }
    }
}

impl Read for SliceReader {
    type Error = core::convert::Infallible;

    /// Copies `min(self.readable(), buf.len())` bytes of unread data to the
    /// front of `buf` and advances past them; never blocks and never fails.
    fn read(&mut self, buf: &mut Vec<u8>) -> (r: Result<
        usize,
        Error<core::convert::Infallible>,
    >)
        ensures
            ({
                let n = if old(self).readable() < old(buf)@.len() {
                    old(self).readable() as int
                } else {
                    old(buf)@.len() as int
                };
                &&& r == Ok::<usize, Error<core::convert::Infallible>>(n as usize)
                &&& final(self).data == old(self).data
                &&& final(self).pos == old(self).pos + n
                &&& final(buf)@.len() == old(buf)@.len()
                &&& forall|i: int|
                    0 <= i < n ==> final(buf)@[i] == old(self).data@[old(self).pos + i]
                &&& forall|i: int| n <= i < old(buf)@.len() ==> final(buf)@[i] == old(buf)@[i]
            }),
    {
        let available = if self.pos <= self.data.len() {
            self.data.len() - self.pos
        } else {
            0
        };
        let n = if available < buf.len() {
            available
        } else {
            buf.len()
        };
        let mut i: usize = 0;
        while i < n
            invariant
                *self == *old(self),
                i <= n,
                n <= buf@.len(),
                self.data@.len() <= usize::MAX,
                self.pos + n <= self.data@.len() || n == 0,
                buf@.len() == old(buf)@.len(),
                forall|k: int| 0 <= k < i ==> buf@[k] == self.data@[self.pos + k],
                forall|k: int| i <= k < buf@.len() ==> buf@[k] == old(buf)@[k],
            decreases n - i,
        {
            let b = self.data[self.pos + i];
            buf[i] = b;
            i = i + 1;
        }
        self.pos = self.pos + n;
        Ok(n)
    }
}

} // verus!
