//! Reads and writes that take several steps.
//!
//! Each type here stands for one operation on a stream and keeps count for
//! it: how much of a buffer has been filled or written, and whether the
//! operation is over. The stream itself is only carried along; the runtime
//! does the reading and writing, and reports each step.

use vstd::prelude::*;
use tokio::io::ReadBuf;
use crate::error::{eof, Error, ErrorView, IoKind};

verus! {

/// The read buffer of `tokio`: a borrowed byte buffer and the count of bytes
/// filled so far.
#[verifier::external_type_specification]
#[verifier::external_body]
pub struct ExReadBuf<'a>(ReadBuf<'a>);

/// What `ReadBuf::filled` of `tokio` gives: the bytes that have been put
/// into the buffer, oldest first.
pub uninterp spec fn filled_of(buf: ReadBuf<'_>) -> Seq<u8>;

/// What `ReadBuf::capacity` of `tokio` gives: the number of bytes that the
/// buffer can hold in all.
pub uninterp spec fn capacity_of(buf: ReadBuf<'_>) -> nat;

/// `ReadBuf::new` of `tokio`: a buffer over `storage` with nothing filled,
/// whose capacity is the length of `storage`.
#[verifier::external_body]
fn read_buf_new<'a>(storage: &'a mut [u8]) -> (buf: ReadBuf<'a>)
    ensures
        filled_of(buf) == Seq::<u8>::empty(),
        capacity_of(buf) == old(storage)@.len(),
{
    ReadBuf::new(storage)
}

/// `ReadBuf::remaining` of `tokio`: the capacity less the number of bytes
/// filled, which never exceeds the capacity.
#[verifier::external_body]
fn read_buf_remaining(buf: &ReadBuf<'_>) -> (n: usize)
    ensures
        n + filled_of(*buf).len() == capacity_of(*buf),
{
    buf.remaining()
}

/// `ReadBuf::put_slice` of `tokio`: appends `chunk` to the filled bytes. It
/// panics where `chunk` is longer than what remains, which `requires` rules
/// out.
#[verifier::external_body]
fn read_buf_put(buf: &mut ReadBuf<'_>, chunk: &[u8])
    requires
        filled_of(*old(buf)).len() + chunk@.len() <= capacity_of(*old(buf)),
    ensures
        filled_of(*final(buf)) == filled_of(*old(buf)) + chunk@,
        capacity_of(*final(buf)) == capacity_of(*old(buf)),
{
    buf.put_slice(chunk)
}

/// `ReadBuf::filled` of `tokio`: the bytes filled so far.
#[verifier::external_body]
fn read_buf_filled<'b>(buf: &'b ReadBuf<'_>) -> (bytes: &'b [u8])
    ensures
        bytes@ == filled_of(*buf),
{
    buf.filled()
}

/// How far an operation of several steps has come.
#[derive(Debug, Clone, PartialEq, Eq)]
pub enum Progress {
    /// The operation is over.
    Done,
    /// Another step is needed.
    Again,
    /// The operation failed.
    Failed(Error),
}

/// The smaller of two counts.
pub open spec fn at_most(n: nat, limit: nat) -> nat {
    if n <= limit {
        n
    } else {
        limit
    }
}

/// One read into a buffer.
pub struct Read<'a, T> {
    buf: ReadBuf<'a>,
    reader: &'a mut T,
}

impl<'a, T> Read<'a, T> {
    /// The bytes read.
    pub closed spec fn filled(&self) -> Seq<u8> {
        filled_of(self.buf)
    }

    /// The number of bytes that the buffer holds.
    pub closed spec fn capacity(&self) -> nat {
        capacity_of(self.buf)
    }

    /// A read from `reader` into `storage`.
    pub fn new(reader: &'a mut T, storage: &'a mut [u8]) -> (r: Self)
        ensures
            r.filled() == Seq::<u8>::empty(),
            r.capacity() == old(storage)@.len(),
    {
        Read { buf: read_buf_new(storage), reader }
    }

    /// The stream to read and the buffer to read into, for the runtime.
    pub fn parts(&mut self) -> ((reader, buf): (&mut T, &mut ReadBuf<'a>))
        ensures
            filled_of(*buf) == old(self).filled(),
            capacity_of(*buf) == old(self).capacity(),
            final(self).filled() == filled_of(*final(buf)),
            final(self).capacity() == capacity_of(*final(buf)),
    {
        (&mut *self.reader, &mut self.buf)
    }

    /// The room that is left in the buffer.
    pub fn remaining(&self) -> (n: usize)
        ensures
            n + self.filled().len() == self.capacity(),
    {
        read_buf_remaining(&self.buf)
    }

    /// Takes what the stream gave, as far as there is room for it, and says
    /// how many bytes were read.
    pub fn finish(&mut self, chunk: &[u8]) -> (n: usize)
        ensures
            old(self).filled().len() <= old(self).capacity(),
            n == at_most(chunk@.len(), (old(self).capacity() - old(self).filled().len()) as nat),
            final(self).filled() == old(self).filled() + chunk@.take(n as int),
            final(self).capacity() == old(self).capacity(),
    {
        let room = read_buf_remaining(&self.buf);
        let n = if chunk.len() <= room {
            chunk.len()
        } else {
            room
        };
        let part = &chunk[0..n];
        assert(part@ =~= chunk@.take(n as int));
        read_buf_put(&mut self.buf, part);
        n
    }

    /// The bytes read.
    pub fn bytes(&self) -> (bytes: &[u8])
        ensures
            bytes@ == self.filled(),
    {
        read_buf_filled(&self.buf)
    }
}

/// A read that goes on until its buffer is full.
pub struct ReadExact<'a, T> {
    buf: ReadBuf<'a>,
    reader: &'a mut T,
}

impl<'a, T> ReadExact<'a, T> {
    /// The bytes read so far.
    pub closed spec fn filled(&self) -> Seq<u8> {
        filled_of(self.buf)
    }

    /// The number of bytes asked for.
    pub closed spec fn wanted(&self) -> nat {
        capacity_of(self.buf)
    }

    /// A read from `reader` of as many bytes as `storage` holds.
    pub fn new(reader: &'a mut T, storage: &'a mut [u8]) -> (r: Self)
        ensures
            r.filled() == Seq::<u8>::empty(),
            r.wanted() == old(storage)@.len(),
    {
        ReadExact { buf: read_buf_new(storage), reader }
    }

    /// The stream to read and the buffer to read into, for the runtime.
    pub fn parts(&mut self) -> ((reader, buf): (&mut T, &mut ReadBuf<'a>))
        ensures
            filled_of(*buf) == old(self).filled(),
            capacity_of(*buf) == old(self).wanted(),
            final(self).filled() == filled_of(*final(buf)),
            final(self).wanted() == capacity_of(*final(buf)),
    {
        (&mut *self.reader, &mut self.buf)
    }

    /// The number of bytes still to be read.
    pub fn remaining(&self) -> (n: usize)
        ensures
            n + self.filled().len() == self.wanted(),
    {
        read_buf_remaining(&self.buf)
    }

    /// Says how the read stands after the runtime has read the stream into
    /// the buffer once, where `before` bytes were still to be read before
    /// that. With nothing wanted, before or now, the read is over. A read
    /// that gave nothing while bytes were wanted met the end of the stream
    /// too early.
    pub fn check(&self, before: usize) -> (progress: Progress)
        ensures
            self.filled().len() <= self.wanted(),
            if before == 0 || self.filled().len() == self.wanted() {
                progress == Progress::Done
            } else if self.wanted() - self.filled().len() == before {
                progress matches Progress::Failed(e) && e@ == ErrorView::Io(
                    IoKind::UnexpectedEof,
                    "early eof"@,
                )
            } else {
                progress == Progress::Again
            },
    {
        let now = read_buf_remaining(&self.buf);
        if before == 0 || now == 0 {
            Progress::Done
        } else if now == before {
            Progress::Failed(eof())
        } else {
            Progress::Again
        }
    }

    /// Takes what one read of the stream gave and says how the whole read
    /// stands. With nothing left to read the read is over. A read that gave
    /// nothing while bytes were still wanted met the end of the stream too
    /// early. Otherwise the bytes are kept, as far as they were asked for,
    /// and the read is over once the buffer is full.
    pub fn feed(&mut self, chunk: &[u8]) -> (progress: Progress)
        ensures
            old(self).filled().len() <= old(self).wanted(),
            final(self).wanted() == old(self).wanted(),
            final(self).filled() == old(self).filled() + chunk@.take(
                at_most(chunk@.len(), (old(self).wanted() - old(self).filled().len()) as nat) as int,
            ),
            match progress {
                Progress::Done => final(self).filled().len() == final(self).wanted(),
                Progress::Again => final(self).filled().len() < final(self).wanted() && chunk@.len()
                    > 0,
                Progress::Failed(e) => {
                    &&& e@ == ErrorView::Io(IoKind::UnexpectedEof, "early eof"@)
                    &&& old(self).filled().len() < old(self).wanted()
                    &&& chunk@.len() == 0
                },
            },
    {
        let rem = read_buf_remaining(&self.buf);
        if rem == 0 {
            assert(chunk@.take(0) =~= Seq::<u8>::empty());
            assert(self.filled() + Seq::<u8>::empty() =~= self.filled());
            return Progress::Done;
        }
        let n = if chunk.len() <= rem {
            chunk.len()
        } else {
            rem
        };
        let part = &chunk[0..n];
        assert(part@ =~= chunk@.take(n as int));
        read_buf_put(&mut self.buf, part);
        if n == 0 {
            assert(self.filled() =~= old(self).filled());
            Progress::Failed(eof())
        } else if n == rem {
            Progress::Done
        } else {
            Progress::Again
        }
    }

    /// The bytes read so far.
    pub fn bytes(&self) -> (bytes: &[u8])
        ensures
            bytes@ == self.filled(),
    {
        read_buf_filled(&self.buf)
    }
}

/// One write of a buffer.
pub struct Write<'a, T> {
    buf: &'a [u8],
    writer: &'a mut T,
}

impl<'a, T> Write<'a, T> {
    /// The bytes to be written.
    pub closed spec fn data(&self) -> Seq<u8> {
        self.buf@
    }

    /// A write of `buf` to `writer`.
    pub fn new(writer: &'a mut T, buf: &'a [u8]) -> (w: Self)
        ensures
            w.data() == buf@,
    {
        Write { buf, writer }
    }

    /// The stream to write to and the bytes to hand to it, for the runtime.
    pub fn parts(&mut self) -> ((writer, bytes): (&mut T, &'a [u8]))
        ensures
            bytes@ == old(self).data(),
            final(self).data() == old(self).data(),
    {
        (&mut *self.writer, self.buf)
    }

    /// The bytes to hand to the stream.
    pub fn pending(&self) -> (bytes: &'a [u8])
        ensures
            bytes@ == self.data(),
    {
        self.buf
    }

    /// The number of bytes written, where the stream says that it took
    /// `taken`: never more than there were.
    pub fn finish(&self, taken: usize) -> (n: usize)
        ensures
            n == at_most(taken as nat, self.data().len()),
    {
        if taken <= self.buf.len() {
            taken
        } else {
            self.buf.len()
        }
    }
}

/// A write that goes on until all of its buffer is written.
pub struct WriteAll<'a, T> {
    buf: &'a [u8],
    offset: usize,
    writer: &'a mut T,
}

impl<'a, T> WriteAll<'a, T> {
    /// The bytes to be written.
    pub closed spec fn data(&self) -> Seq<u8> {
        self.buf@
    }

    /// The number of bytes written so far; never more than there are.
    pub closed spec fn written(&self) -> nat {
        at_most(self.offset as nat, self.buf@.len())
    }

    /// A write of all of `buf` to `writer`, of which nothing is written yet.
    pub fn new(writer: &'a mut T, buf: &'a [u8]) -> (w: Self)
        ensures
            w.data() == buf@,
            w.written() == 0,
    {
        WriteAll { buf, offset: 0, writer }
    }

    /// The stream to write to and the bytes to hand to it next, for the
    /// runtime.
    pub fn parts(&mut self) -> ((writer, bytes): (&mut T, &'a [u8]))
        ensures
            old(self).written() <= old(self).data().len(),
            bytes@ == old(self).data().skip(old(self).written() as int),
            final(self).data() == old(self).data(),
            final(self).written() == old(self).written(),
    {
        let bytes = self.pending();
        (&mut *self.writer, bytes)
    }

    /// The bytes to hand to the stream next: all that is not written yet.
    pub fn pending(&self) -> (bytes: &'a [u8])
        ensures
            self.written() <= self.data().len(),
            bytes@ == self.data().skip(self.written() as int),
    {
        let from = if self.offset <= self.buf.len() {
            self.offset
        } else {
            self.buf.len()
        };
        let bytes = &self.buf[from..self.buf.len()];
        assert(bytes@ =~= self.data().skip(self.written() as int));
        bytes
    }

    /// Takes note that the stream took `taken` more bytes, and says how the
    /// whole write stands: it is over once every byte is written.
    pub fn advance(&mut self, taken: usize) -> (progress: Progress)
        ensures
            old(self).written() <= old(self).data().len(),
            final(self).data() == old(self).data(),
            final(self).written() == old(self).written() + at_most(
                taken as nat,
                (old(self).data().len() - old(self).written()) as nat,
            ),
            progress == if final(self).written() == final(self).data().len() {
                Progress::Done
            } else {
                Progress::Again
            },
    {
        let from = if self.offset <= self.buf.len() {
            self.offset
        } else {
            self.buf.len()
        };
        let left = self.buf.len() - from;
        let n = if taken <= left {
            taken
        } else {
            left
        };
        self.offset = from + n;
        if self.offset == self.buf.len() {
            Progress::Done
        } else {
            Progress::Again
        }
    }
}

/// Reads of several steps, for every stream.
pub trait AsyncReadExt {
    /// One read into `buf`.
    fn read<'a>(&'a mut self, buf: &'a mut [u8]) -> (r: Read<'a, Self>) where Self: Sized
        ensures
            r.filled() == Seq::<u8>::empty(),
            r.capacity() == old(buf)@.len(),
    {
        Read::new(self, buf)
    }

    /// A read that fills `buf`.
    fn read_exact<'a>(&'a mut self, buf: &'a mut [u8]) -> (r: ReadExact<'a, Self>) where
        Self: Sized,

        ensures
            r.filled() == Seq::<u8>::empty(),
            r.wanted() == old(buf)@.len(),
    {
        ReadExact::new(self, buf)
    }
}

/// Writes of several steps, for every stream.
pub trait AsyncWriteExt {
    /// One write of `buf`.
    fn write<'a>(&'a mut self, buf: &'a [u8]) -> (w: Write<'a, Self>) where Self: Sized
        ensures
            w.data() == buf@,
    {
        Write::new(self, buf)
    }

    /// A write of all of `buf`.
    fn write_all<'a>(&'a mut self, buf: &'a [u8]) -> (w: WriteAll<'a, Self>) where Self: Sized
        ensures
            w.data() == buf@,
            w.written() == 0,
    {
        WriteAll::new(self, buf)
    }
}

impl<T> AsyncReadExt for T {
}

impl<T> AsyncWriteExt for T {
}

} // verus!
