use fuso::error::Error;
use fuso::fallback::{Fallback, Mode, DEFAULT_LIMIT};

fn read(fb: &mut Fallback<Vec<u8>>, inner: &mut Vec<u8>, k: usize) -> Vec<u8> {
    let held = fb.replay(k);
    if !held.is_empty() || k == 0 {
        return held;
    }
    let n = k.min(inner.len());
    let got: Vec<u8> = inner.drain(..n).collect();
    fb.record(&got).unwrap();
    got
}

fn read_all(fb: &mut Fallback<Vec<u8>>, inner: &mut Vec<u8>) -> Vec<u8> {
    let mut out = Vec::new();
    loop {
        let got = read(fb, inner, 3);
        if got.is_empty() {
            return out;
        }
        out.extend_from_slice(&got);
    }
}

#[test]
fn mark_read_backward_gives_the_same_bytes_then_the_rest() {
    let mut inner = b"HELLO WORLD".to_vec();
    let mut fb = Fallback::new(Vec::new(), true);
    fb.mark();
    assert_eq!(read(&mut fb, &mut inner, 5), b"HELLO");
    fb.backward();
    assert_eq!(fb.mode(), Mode::Rewound);
    assert_eq!(read_all(&mut fb, &mut inner), b"HELLO WORLD");
    assert_eq!(fb.mode(), Mode::Forward);
}

#[test]
fn several_reads_are_replayed_in_order() {
    let mut inner = b"abcdefghij".to_vec();
    let mut fb = Fallback::new(Vec::new(), false);
    fb.mark();
    assert_eq!(read(&mut fb, &mut inner, 2), b"ab");
    assert_eq!(read(&mut fb, &mut inner, 3), b"cde");
    assert_eq!(fb.back_data(), Some(&b"abcde"[..]));
    fb.backward();
    assert_eq!(fb.pending_len(), 5);
    assert_eq!(fb.replay(4), b"abcd");
    assert_eq!(fb.back_data(), Some(&b"e"[..]));
    assert_eq!(fb.replay(4), b"e");
    assert_eq!(fb.back_data(), None);
    assert_eq!(read_all(&mut fb, &mut inner), b"fghij");
}

#[test]
fn a_second_mark_records_what_was_still_pending() {
    let mut inner = b"0123456789".to_vec();
    let mut fb = Fallback::new(Vec::new(), true);
    fb.mark();
    assert_eq!(read(&mut fb, &mut inner, 4), b"0123");
    fb.backward();
    assert_eq!(fb.replay(1), b"0");
    fb.mark();
    assert_eq!(fb.mode(), Mode::Recording);
    assert_eq!(read(&mut fb, &mut inner, 2), b"12");
    assert_eq!(read(&mut fb, &mut inner, 2), b"3");
    assert_eq!(read(&mut fb, &mut inner, 2), b"45");
    fb.backward();
    assert_eq!(read_all(&mut fb, &mut inner), b"123456789");
}

#[test]
fn without_a_mark_nothing_is_kept() {
    let mut inner = b"xyz".to_vec();
    let mut fb = Fallback::new(Vec::new(), true);
    assert_eq!(read(&mut fb, &mut inner, 2), b"xy");
    assert_eq!(fb.back_data(), None);
    fb.backward();
    assert_eq!(fb.mode(), Mode::Forward);
    assert_eq!(fb.pending_len(), 0);
    assert_eq!(fb.into_inner(), Vec::<u8>::new());
}

#[test]
fn backward_with_nothing_recorded_forwards() {
    let mut fb = Fallback::new(7u8, true);
    fb.mark();
    fb.backward();
    assert_eq!(fb.mode(), Mode::Forward);
    assert_eq!(fb.into_inner(), 7);
}

#[test]
fn commit_consumes_what_was_read() {
    let mut inner = b"header-body".to_vec();
    let mut fb = Fallback::new(Vec::new(), true);
    fb.mark();
    assert_eq!(read(&mut fb, &mut inner, 7), b"header-");
    fb.commit();
    assert_eq!(fb.mode(), Mode::Forward);
    assert_eq!(fb.back_data(), None);
    assert_eq!(read_all(&mut fb, &mut inner), b"body");
}

#[test]
fn commit_keeps_what_was_not_read_again() {
    let mut fb = Fallback::new((), true);
    fb.mark();
    fb.record(b"abcdef").unwrap();
    fb.backward();
    fb.mark();
    assert_eq!(fb.replay(2), b"ab");
    fb.commit();
    assert_eq!(fb.mode(), Mode::Rewound);
    assert_eq!(fb.replay(10), b"cdef");
    assert_eq!(fb.mode(), Mode::Forward);
}

#[test]
fn strict_mode_fails_past_the_limit() {
    let mut fb = Fallback::with_limit((), true, 4);
    fb.mark();
    assert_eq!(fb.record(b"abc"), Ok(()));
    assert_eq!(fb.record(b"de"), Err(Error::Decode));
    assert_eq!(fb.back_data(), Some(&b"abc"[..]));
    assert_eq!(fb.record(b"d"), Ok(()));
    fb.backward();
    assert_eq!(fb.replay(10), b"abcd");
}

#[test]
fn lenient_mode_gives_the_record_up_past_the_limit() {
    let mut fb = Fallback::with_limit((), false, 4);
    fb.mark();
    assert_eq!(fb.record(b"abc"), Ok(()));
    assert_eq!(fb.record(b"de"), Ok(()));
    assert_eq!(fb.mode(), Mode::Forward);
    fb.backward();
    assert_eq!(fb.back_data(), None);
    assert_eq!(fb.replay(10), b"");
}

#[test]
fn the_default_limit_is_sixty_four_kilobytes() {
    assert_eq!(DEFAULT_LIMIT, 65536);
    let mut fb = Fallback::new((), true);
    assert!(fb.is_strict());
    fb.mark();
    assert_eq!(fb.record(&vec![0u8; 65536]), Ok(()));
    assert_eq!(fb.record(&[0]), Err(Error::Decode));
}

#[test]
fn discard_gives_the_stream_whatever_is_held() {
    let mut fb = Fallback::new(String::from("stream"), true);
    fb.mark();
    fb.record(b"junk").unwrap();
    assert_eq!(fb.get_ref(), "stream");
    assert_eq!(fb.discard(), "stream");
}
