//! Non-blocking byte writer.

use vstd::prelude::*;

use crate::Error;

verus! {

/// Non-blocking writer trait.
pub trait Write {
    /// An enumeration of possible errors.
    ///
    /// May be `core::convert::Infallible` for infallible implementations.
    type Error;

    /// Pushes some bytes into this sink from the specified buffer,
    /// returning how many bytes were written.
    ///
    /// If the object needs to block for a write it returns
    /// `Err(Error::WouldBlock)`.
    ///
    /// A return value of `Ok(n)` guarantees `0 <= n <= buf.len()`: the
    /// first `n` bytes of `buf` have been written to this sink. If `n == 0`
    /// and the buffer is non-empty, the writer has run out of space and
    /// will not be able to service any future write.
    fn write(&mut self, buf: &[u8]) -> (r: Result<usize, Error<Self::Error>>)
        ensures
            r matches Ok(n) ==> n <= buf@.len(),
    ;

    /// Attempts to flush the object, ensuring that any buffered data reach
    /// their destination.
    ///
    /// On success, returns `Ok(())`. If flushing cannot immediately
    /// complete, returns `Err(Error::WouldBlock)`.
    fn flush(&mut self) -> (r: Result<(), Error<Self::Error>>);

    /// Attempts to close the object.
    ///
    /// On success, returns `Ok(())`. If closing cannot immediately
    /// complete, returns `Err(Error::WouldBlock)`.
    fn close(&mut self) -> (r: Result<(), Error<Self::Error>>);
}

impl<'a, W: Write> Write for &'a mut W {
    type Error = W::Error;

    fn write(&mut self, buf: &[u8]) -> (r: Result<usize, Error<W::Error>>) {
        (**self).write(buf)
    }

    fn flush(&mut self) -> (r: Result<(), Error<W::Error>>) {
        (**self).flush()
    }

    fn close(&mut self) -> (r: Result<(), Error<W::Error>>) {
        (**self).close()
    }
}

/// A writer into an in-memory buffer of bytes: the analogue of writing into
/// a byte slice, infallible and never blocking.
///
/// Each write fills as many of the remaining positions as the input allows
/// and advances past them; once the buffer is full every write reports
/// `Ok(0)`. Flushing and closing complete immediately.
pub struct SliceWriter {
    /// The destination buffer; its length never changes.
    pub dest: Vec<u8>,
    /// How many bytes have been written so far.
    pub pos: usize,
}

impl SliceWriter {
    /// How many more bytes fit.
    pub open spec fn capacity_left(&self) -> nat {
        if self.pos <= self.dest@.len() {
            (self.dest@.len() - self.pos) as nat
        } else {
            0
        }
    }

    /// A writer that fills the given buffer from the start.
    pub fn new(dest: Vec<u8>) -> (r: SliceWriter)
        ensures
            r.dest == dest,
            r.pos == 0,
    {
        SliceWriter { dest, pos: 0 }
    }
}

impl Write for SliceWriter {
    type Error = core::convert::Infallible;

    /// Copies `min(self.capacity_left(), buf.len())` bytes of `buf` into
    /// the next free positions of the destination and advances past them;
    /// never blocks and never fails.
    fn write(&mut self, buf: &[u8]) -> (r: Result<usize, Error<core::convert::Infallible>>)
        ensures
            ({
                let n = if old(self).capacity_left() < buf@.len() {
                    old(self).capacity_left() as int
                } else {
                    buf@.len() as int
                };
                &&& r == Ok::<usize, Error<core::convert::Infallible>>(n as usize)
                &&& final(self).pos == old(self).pos + n
                &&& final(self).dest@.len() == old(self).dest@.len()
                &&& forall|i: int|
                    old(self).pos <= i < old(self).pos + n ==> final(self).dest@[i] == buf@[i
                        - old(self).pos]
                &&& forall|i: int|
                    0 <= i < old(self).dest@.len() && !(old(self).pos <= i < old(self).pos + n)
                        ==> final(self).dest@[i] == old(self).dest@[i]
            }),
    {
        let space = if self.pos <= self.dest.len() {
            self.dest.len() - self.pos
        } else {
            0
        };
        let n = if space < buf.len() {
            space
        } else {
            buf.len()
        };
        let mut i: usize = 0;
        while i < n
            invariant
                i <= n,
                n <= buf@.len(),
                self.pos == old(self).pos,
                self.dest@.len() <= usize::MAX,
                self.pos + n <= self.dest@.len() || n == 0,
                self.dest@.len() == old(self).dest@.len(),
                forall|k: int| self.pos <= k < self.pos + i ==> self.dest@[k] == buf@[k - self.pos],
                forall|k: int|
                    0 <= k < self.dest@.len() && !(self.pos <= k < self.pos + i)
                        ==> self.dest@[k] == old(self).dest@[k],
            decreases n - i,
        {
            let b = buf[i];
            let idx = self.pos + i;
            self.dest[idx] = b;
            i = i + 1;
        }
        self.pos = self.pos + n;
        Ok(n)
    }

    /// Succeeds immediately and changes nothing: an in-memory writer has no
    /// buffered data.
    fn flush(&mut self) -> (r: Result<(), Error<core::convert::Infallible>>)
        ensures
            r == Ok::<(), Error<core::convert::Infallible>>(()),
            *final(self) == *old(self),
    {
        Ok(())
    }

    /// Succeeds immediately and changes nothing: an in-memory writer holds
    /// no channel to close.
    fn close(&mut self) -> (r: Result<(), Error<core::convert::Infallible>>)
        ensures
            r == Ok::<(), Error<core::convert::Infallible>>(()),
            *final(self) == *old(self),
    {
        Ok(())
    }
}

} // verus!
