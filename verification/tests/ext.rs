use fuso::error::{eof, Error, IoKind};
use fuso::ext::{AsyncReadExt, AsyncWriteExt, Progress, Read, ReadExact, Write, WriteAll};

#[test]
fn read_exact_is_over_when_the_buffer_is_full() {
    let mut stream = ();
    let mut storage = [0u8; 6];
    let mut read = ReadExact::new(&mut stream, &mut storage);
    assert_eq!(read.remaining(), 6);
    assert_eq!(read.feed(b"ab"), Progress::Again);
    assert_eq!(read.remaining(), 4);
    assert_eq!(read.feed(b"cde"), Progress::Again);
    assert_eq!(read.bytes(), b"abcde");
    assert_eq!(read.feed(b"f"), Progress::Done);
    assert_eq!(read.remaining(), 0);
    assert_eq!(read.bytes(), b"abcdef");
    assert_eq!(storage, *b"abcdef");
}

#[test]
fn read_exact_meets_an_early_end() {
    let mut stream = ();
    let mut storage = [0u8; 4];
    let mut read = ReadExact::new(&mut stream, &mut storage);
    assert_eq!(read.feed(b"ab"), Progress::Again);
    assert_eq!(read.feed(b""), Progress::Failed(eof()));
    assert_eq!(read.bytes(), b"ab");
    assert_eq!(eof(), Error::Io(IoKind::UnexpectedEof, String::from("early eof")));
    assert_eq!(eof().describe(), "early eof");
}

#[test]
fn read_exact_of_nothing_is_over_at_once() {
    let mut stream = ();
    let mut storage = [0u8; 0];
    let mut read = ReadExact::new(&mut stream, &mut storage);
    assert_eq!(read.remaining(), 0);
    assert_eq!(read.feed(b""), Progress::Done);
    assert_eq!(read.feed(b"more"), Progress::Done);
    assert_eq!(read.bytes(), b"");
}

#[test]
fn read_exact_takes_no_more_than_it_asked_for() {
    let mut stream = ();
    let mut storage = [0u8; 3];
    let mut read = ReadExact::new(&mut stream, &mut storage);
    assert_eq!(read.feed(b"abcdef"), Progress::Done);
    assert_eq!(read.bytes(), b"abc");
}

#[test]
fn read_says_how_many_bytes_it_got() {
    let mut stream = ();
    let mut storage = [0u8; 4];
    let mut read = Read::new(&mut stream, &mut storage);
    assert_eq!(read.remaining(), 4);
    assert_eq!(read.finish(b"xy"), 2);
    assert_eq!(read.bytes(), b"xy");
    assert_eq!(read.finish(b"123"), 2);
    assert_eq!(read.bytes(), b"xy12");
    assert_eq!(read.finish(b"z"), 0);
    assert_eq!(read.remaining(), 0);
}

#[test]
fn write_hands_out_its_buffer() {
    let mut stream = ();
    let write = Write::new(&mut stream, b"data");
    assert_eq!(write.pending(), b"data");
    assert_eq!(write.finish(3), 3);
    assert_eq!(write.finish(4), 4);
    assert_eq!(write.finish(9), 4);
}

#[test]
fn write_all_goes_on_until_everything_is_written() {
    let mut stream = ();
    let mut write = WriteAll::new(&mut stream, b"0123456789");
    assert_eq!(write.pending(), b"0123456789");
    assert_eq!(write.advance(4), Progress::Again);
    assert_eq!(write.pending(), b"456789");
    assert_eq!(write.advance(0), Progress::Again);
    assert_eq!(write.pending(), b"456789");
    assert_eq!(write.advance(5), Progress::Again);
    assert_eq!(write.pending(), b"9");
    assert_eq!(write.advance(1), Progress::Done);
    assert_eq!(write.pending(), b"");
}

#[test]
fn write_all_of_nothing_is_over_after_one_write() {
    let mut stream = ();
    let mut write = WriteAll::new(&mut stream, b"");
    assert_eq!(write.pending(), b"");
    assert_eq!(write.advance(0), Progress::Done);
}

#[test]
fn write_all_never_counts_more_than_there_is() {
    let mut stream = ();
    let mut write = WriteAll::new(&mut stream, b"abc");
    assert_eq!(write.advance(usize::MAX), Progress::Done);
    assert_eq!(write.pending(), b"");
    assert_eq!(write.advance(1), Progress::Done);
}

#[test]
fn check_compares_what_is_wanted_before_and_after_a_read() {
    let mut stream = ();
    let mut storage = [0u8; 4];
    let mut read = ReadExact::new(&mut stream, &mut storage);
    assert_eq!(read.check(0), Progress::Done);
    assert_eq!(read.check(4), Progress::Failed(eof()));
    let before = read.remaining();
    let (_, buf) = read.parts();
    buf.put_slice(b"ab");
    assert_eq!(read.check(before), Progress::Again);
    assert_eq!(read.check(read.remaining()), Progress::Failed(eof()));
    let before = read.remaining();
    let (_, buf) = read.parts();
    buf.put_slice(b"cd");
    assert_eq!(read.check(before), Progress::Done);
    assert_eq!(read.bytes(), b"abcd");
}

#[test]
fn parts_hand_out_the_stream_and_the_bytes() {
    let mut stream = Vec::new();
    let mut write = WriteAll::new(&mut stream, b"hello");
    let (out, bytes) = write.parts();
    out.extend_from_slice(&bytes[..2]);
    assert_eq!(write.advance(2), Progress::Again);
    let (out, bytes) = write.parts();
    assert_eq!(bytes, b"llo");
    out.extend_from_slice(bytes);
    assert_eq!(write.advance(3), Progress::Done);
    assert_eq!(stream, b"hello");

    let mut stream = 0u8;
    let mut write = Write::new(&mut stream, b"xyz");
    let (out, bytes) = write.parts();
    *out = bytes[0];
    assert_eq!(stream, b'x');
}

#[test]
fn every_stream_has_the_reads_and_writes() {
    let mut stream = ();
    let mut storage = [0u8; 2];
    assert_eq!(stream.read(&mut storage).remaining(), 2);
    assert_eq!(stream.read_exact(&mut storage).feed(b"ok"), Progress::Done);
    assert_eq!(storage, *b"ok");
    assert_eq!(stream.write(b"abc").pending(), b"abc");
    assert_eq!(stream.write_all(b"abc").advance(3), Progress::Done);
}
