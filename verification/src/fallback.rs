//! A stream wrapper that remembers what was read through it, so that a
//! reader may look at the first bytes of a connection and then hand the
//! connection on as if nothing had been read.
//!
//! The wrapper does no reading itself. Whoever reads first asks
//! [`Fallback::replay`] for bytes that are held back; only when there are
//! none does it read the wrapped stream, and it reports what it got with
//! [`Fallback::record`].

use vstd::prelude::*;
use crate::error::{Error, ErrorView};
use crate::wire::{append_bytes, copy_range};

verus! {

/// What a [`Fallback`] is doing with the bytes that pass through it.
#[derive(Debug, Clone, Copy, PartialEq, Eq, Structural)]
pub enum Mode {
    /// Nothing is held: reads go straight to the wrapped stream.
    Forward,
    /// Every byte read is kept.
    Recording,
    /// Kept bytes are being handed out again.
    Rewound,
}

/// The number of bytes a [`Fallback`] made by [`Fallback::new`] keeps at most.
pub const DEFAULT_LIMIT: usize = 0x1_0000;

/// The mathematical value of a [`Fallback`], apart from the stream it wraps.
pub struct FallbackView {
    pub mode: Mode,
    /// The bytes held, in the order in which the stream gave them.
    pub recorded: Seq<u8>,
    /// How many of the held bytes the reader has already been given.
    pub cursor: nat,
    /// Whether a record that outgrows the limit is an error.
    pub strict: bool,
    /// The number of bytes that may be held.
    pub limit: nat,
}

impl FallbackView {
    /// The state of a wrapper that holds nothing.
    pub open spec fn fresh(strict: bool, limit: nat) -> FallbackView {
        FallbackView { mode: Mode::Forward, recorded: Seq::empty(), cursor: 0, strict, limit }
    }

    /// The invariant of every [`Fallback`].
    pub open spec fn wf(self) -> bool {
        &&& self.cursor <= self.recorded.len()
        &&& self.mode is Forward ==> self.recorded.len() == 0
        &&& self.mode is Rewound ==> self.cursor < self.recorded.len()
    }

    /// The held bytes that the reader gets before any new byte of the
    /// wrapped stream.
    pub open spec fn pending(self) -> Seq<u8> {
        self.recorded.skip(self.cursor as int)
    }

    /// The bytes that a rewind would hand out: all that was recorded while
    /// recording, what is left of it once rewound.
    pub open spec fn held(self) -> Seq<u8> {
        if self.mode is Recording {
            self.recorded
        } else {
            self.pending()
        }
    }

    /// What a reader of this wrapper is going to read, where `inner` is what
    /// the wrapped stream still has to give.
    pub open spec fn upcoming(self, inner: Seq<u8>) -> Seq<u8> {
        self.pending() + inner
    }

    /// Whether nothing is held and nothing is being recorded, so that the
    /// wrapped stream alone says what comes next.
    pub open spec fn drained(self) -> bool {
        self.mode is Forward
    }

    /// The state with nothing held.
    pub open spec fn cleared(self) -> FallbackView {
        FallbackView { mode: Mode::Forward, recorded: Seq::empty(), cursor: 0, ..self }
    }

    /// The state once bytes that are no longer recorded are let go: what is
    /// still pending stays to be read, the rest is forgotten.
    pub open spec fn settled(self) -> FallbackView {
        if self.pending().len() == 0 {
            self.cleared()
        } else {
            FallbackView { mode: Mode::Rewound, recorded: self.pending(), cursor: 0, ..self }
        }
    }

    /// The state after `mark`: recording starts at the reader's position.
    pub open spec fn marked(self) -> FallbackView {
        FallbackView { mode: Mode::Recording, recorded: self.pending(), cursor: 0, ..self }
    }

    /// Whether `n` more bytes from the wrapped stream would outgrow the limit.
    pub open spec fn overflows(self, n: nat) -> bool {
        self.mode is Recording && self.recorded.len() + n > self.limit
    }

    /// The state after the wrapped stream gave `data` to the reader.
    pub open spec fn fed(self, data: Seq<u8>) -> FallbackView {
        if !(self.mode is Recording) {
            self
        } else if !self.overflows(data.len()) {
            FallbackView {
                recorded: self.recorded + data,
                cursor: self.recorded.len() + data.len(),
                ..self
            }
        } else if self.strict {
            self
        } else {
            self.cleared()
        }
    }

    /// The state after the reader was given the first `n` pending bytes.
    pub open spec fn replayed(self, n: nat) -> FallbackView {
        if self.mode is Rewound && self.cursor + n >= self.recorded.len() {
            self.cleared()
        } else {
            FallbackView { cursor: self.cursor + n, ..self }
        }
    }

    /// The state after `backward`: all that was recorded is pending again.
    pub open spec fn rewound(self) -> FallbackView {
        if !(self.mode is Recording) {
            self
        } else if self.recorded.len() == 0 {
            self.cleared()
        } else {
            FallbackView { mode: Mode::Rewound, cursor: 0, ..self }
        }
    }

    /// The state after `commit`: what was read while recording is consumed
    /// for good.
    pub open spec fn committed(self) -> FallbackView {
        if self.mode is Recording {
            self.settled()
        } else {
            self
        }
    }

    /// Reading up to `k` bytes through the wrapper, where the wrapped stream
    /// still has `inner` to give: held bytes come first, and the wrapped
    /// stream is read only when none are held. The result is the state after
    /// the read, what the wrapped stream still has to give, and the bytes
    /// that the reader got.
    pub open spec fn read(self, inner: Seq<u8>, k: nat) -> (FallbackView, Seq<u8>, Seq<u8>) {
        if self.pending().len() > 0 {
            let n = if k <= self.pending().len() {
                k
            } else {
                self.pending().len()
            };
            (self.replayed(n), inner, self.pending().take(n as int))
        } else {
            let n = if k <= inner.len() {
                k
            } else {
                inner.len()
            };
            (self.fed(inner.take(n as int)), inner.skip(n as int), inner.take(n as int))
        }
    }
}

/// Every transition keeps the invariant.
pub proof fn lemma_transitions_keep_wf(v: FallbackView, data: Seq<u8>, n: nat)
    requires
        v.wf(),
    ensures
        v.cleared().wf(),
        v.settled().wf(),
        v.marked().wf(),
        v.rewound().wf(),
        v.committed().wf(),
        v.pending().len() == 0 ==> v.fed(data).wf(),
        n <= v.pending().len() ==> v.replayed(n).wf(),
{
}

/// A read hands out a prefix of what was upcoming and leaves the rest
/// upcoming, as long as the record is not given up.
pub proof fn lemma_read_is_prefix(v: FallbackView, inner: Seq<u8>, k: nat)
    requires
        v.wf(),
    ensures
        ({
            let (after, rest, got) = v.read(inner, k);
            &&& after.wf()
            &&& got.len() <= k
            &&& got + after.upcoming(rest) == v.upcoming(inner)
        }),
{
    let (after, rest, got) = v.read(inner, k);
    if v.pending().len() > 0 {
        assert(got + after.upcoming(rest) =~= v.upcoming(inner));
    } else {
        assert(v.pending() =~= Seq::<u8>::empty());
        assert(after.pending() =~= Seq::<u8>::empty());
        assert(got + after.upcoming(rest) =~= v.upcoming(inner));
    }
}

/// While recording, what is held followed by what the wrapped stream still
/// has to give stays the same through every read that the limit allows: a
/// read moves bytes from the stream into the record and loses none.
pub proof fn lemma_read_keeps_record(v: FallbackView, inner: Seq<u8>, k: nat)
    requires
        v.wf(),
        v.mode is Recording,
        v.pending().len() == 0 ==> !v.overflows(k),
    ensures
        ({
            let (after, rest, got) = v.read(inner, k);
            &&& after.mode is Recording
            &&& after.recorded + rest == v.recorded + inner
            &&& after.recorded.take(after.cursor as int) == v.recorded.take(v.cursor as int) + got
        }),
{
    let (after, rest, got) = v.read(inner, k);
    if v.pending().len() > 0 {
        assert(after.recorded.take(after.cursor as int) =~= v.recorded.take(v.cursor as int) + got);
    } else {
        assert(after.recorded + rest =~= v.recorded + inner);
        assert(after.recorded.take(after.cursor as int) =~= v.recorded.take(v.cursor as int) + got);
    }
}

/// Marking, reading `k` bytes in one read and rewinding leaves the reader
/// where it was: the read gave the first bytes of the stream, and after the
/// rewind the same bytes come again, followed by the rest of the stream. The
/// record must fit the limit.
pub proof fn lemma_mark_read_backward(v: FallbackView, inner: Seq<u8>, k: nat)
    requires
        v.wf(),
        k <= v.limit,
    ensures
        ({
            let (after, rest, got) = v.marked().read(inner, k);
            &&& got == v.marked().upcoming(inner).take(got.len() as int)
            &&& v.marked().upcoming(inner) == v.upcoming(inner)
            &&& after.rewound().upcoming(rest) == v.upcoming(inner)
        }),
{
    let m = v.marked();
    let (after, rest, got) = m.read(inner, k);
    assert(m.pending() =~= v.pending());
    assert(m.recorded + inner =~= v.upcoming(inner));
    lemma_read_keeps_record(m, inner, k);
    lemma_read_is_prefix(m, inner, k);
    assert(after.rewound().pending() =~= after.recorded);
    assert(got =~= m.upcoming(inner).take(got.len() as int));
}

/// What is read of a fresh stream between a mark and a rewind is handed out
/// again once, and once only: after the rewind the pending bytes are the
/// bytes that the read gave, and once they have been taken nothing is held
/// any more. The record must fit the limit.
pub proof fn lemma_peek_is_replayed_once(strict: bool, limit: nat, inner: Seq<u8>, k: nat)
    requires
        k <= limit,
    ensures
        ({
            let (after, rest, got) = FallbackView::fresh(strict, limit).marked().read(inner, k);
            let back = after.rewound();
            &&& got == inner.take(got.len() as int)
            &&& back.pending() == got
            &&& back.replayed(got.len()).drained()
            &&& back.replayed(got.len()).upcoming(rest) == rest
        }),
{
    let start = FallbackView::fresh(strict, limit).marked();
    let (after, rest, got) = start.read(inner, k);
    let back = after.rewound();
    assert(start.pending() =~= Seq::<u8>::empty());
    assert(after.recorded =~= got);
    assert(back.pending() =~= got);
    assert(back.replayed(got.len()).pending() =~= Seq::<u8>::empty());
    assert(back.replayed(got.len()).upcoming(rest) =~= rest);
}

/// A stream wrapped so that its first bytes can be read and handed out
/// again.
pub struct Fallback<S> {
    target: S,
    strict: bool,
    limit: usize,
    mode: Mode,
    recorded: Vec<u8>,
    cursor: usize,
}

impl<S> View for Fallback<S> {
    type V = FallbackView;

    closed spec fn view(&self) -> FallbackView {
        FallbackView {
            mode: self.mode,
            recorded: self.recorded@,
            cursor: self.cursor as nat,
            strict: self.strict,
            limit: self.limit as nat,
        }
    }
}

impl<S> Fallback<S> {
    /// What holds of every wrapper at all times.
    #[verifier::type_invariant]
    pub open spec fn inv(self) -> bool {
        self@.wf()
    }

    /// The wrapped stream.
    pub closed spec fn target(self) -> S {
        self.target
    }

    /// Wraps `target`; nothing is held. `strict` says whether outgrowing the
    /// record limit is an error or only ends the recording.
    pub fn new(target: S, strict: bool) -> (fb: Self)
        ensures
            fb.target() == target,
            fb@ == FallbackView::fresh(strict, DEFAULT_LIMIT as nat),
    {
        Fallback { target, strict, limit: DEFAULT_LIMIT, mode: Mode::Forward, recorded: Vec::new(), cursor: 0 }
    }

    /// As [`Fallback::new`], keeping at most `limit` bytes.
    pub fn with_limit(target: S, strict: bool, limit: usize) -> (fb: Self)
        ensures
            fb.target() == target,
            fb@ == FallbackView::fresh(strict, limit as nat),
    {
        Fallback { target, strict, limit, mode: Mode::Forward, recorded: Vec::new(), cursor: 0 }
    }

    pub fn mode(&self) -> (m: Mode)
        ensures
            m == self@.mode,
    {
        self.mode
    }

    pub fn is_strict(&self) -> (b: bool)
        ensures
            b == self@.strict,
    {
        self.strict
    }

    /// A look at the wrapped stream.
    pub fn get_ref(&self) -> (inner: &S)
        ensures
            *inner == self.target(),
    {
        &self.target
    }

    /// The number of held bytes that a reader gets before the wrapped stream
    /// is read again.
    pub fn pending_len(&self) -> (n: usize)
        ensures
            n == self@.pending().len(),
    {
        proof {
            use_type_invariant(self);
        }
        self.recorded.len() - self.cursor
    }

    /// Lets go of everything held and goes back to forwarding.
    fn clear(&mut self)
        ensures
            final(self)@ == old(self)@.cleared(),
            final(self).target() == old(self).target(),
    {
        proof {
            use_type_invariant(&*self);
        }
        self.cursor = 0;
        self.mode = Mode::Recording;
        self.recorded = Vec::new();
        self.mode = Mode::Forward;
    }

    /// Starts recording at the reader's position. Bytes that were held and
    /// not yet read again stay the next to be read, and are recorded too.
    pub fn mark(&mut self)
        ensures
            final(self)@ == old(self)@.marked(),
            final(self).target() == old(self).target(),
    {
        proof {
            use_type_invariant(&*self);
        }
        let kept = copy_range(self.recorded.as_slice(), self.cursor, self.recorded.len());
        assert(kept@ =~= self@.pending());
        self.mode = Mode::Recording;
        self.cursor = 0;
        self.recorded = kept;
    }

    /// Tells the wrapper that the reader has just read `data` from the
    /// wrapped stream. While recording the bytes are kept, up to the limit.
    /// Past the limit a strict wrapper fails with `Decode` and keeps its
    /// state; a lenient one gives the record up and goes on forwarding.
    /// A reader reads the wrapped stream only when nothing is pending.
    pub fn record(&mut self, data: &[u8]) -> (r: Result<(), Error>)
        requires
            old(self)@.pending().len() == 0,
        ensures
            final(self)@ == old(self)@.fed(data@),
            final(self).target() == old(self).target(),
            match r {
                Ok(_) => !(old(self)@.overflows(data@.len()) && old(self)@.strict),
                Err(e) => e@ == ErrorView::Decode && old(self)@.overflows(data@.len()) && old(self)@.strict,
            },
    {
        proof {
            use_type_invariant(&*self);
        }
        match self.mode {
            Mode::Recording => {
                if self.recorded.len() <= self.limit && data.len() <= self.limit
                    - self.recorded.len() {
                    let mut grown: Vec<u8> = Vec::new();
                    self.cursor = 0;
                    core::mem::swap(&mut self.recorded, &mut grown);
                    append_bytes(&mut grown, data);
                    let end = grown.len();
                    self.recorded = grown;
                    self.cursor = end;
                    Ok(())
                } else if self.strict {
                    Err(Error::Decode)
                } else {
                    self.clear();
                    Ok(())
                }
            },
            _ => Ok(()),
        }
    }

    /// Hands out the next pending bytes, at most `max` of them, and moves the
    /// reader past them. Once the last held byte of a rewound wrapper is
    /// handed out, the wrapper forwards again.
    pub fn replay(&mut self, max: usize) -> (out: Vec<u8>)
        ensures
            out@.len() == if max <= old(self)@.pending().len() {
                max as nat
            } else {
                old(self)@.pending().len()
            },
            out@ == old(self)@.pending().take(out@.len() as int),
            final(self)@ == old(self)@.replayed(out@.len()),
            final(self).target() == old(self).target(),
    {
        proof {
            use_type_invariant(&*self);
        }
        let left = self.recorded.len() - self.cursor;
        let n = if max <= left {
            max
        } else {
            left
        };
        let out = copy_range(self.recorded.as_slice(), self.cursor, self.cursor + n);
        assert(out@ =~= self@.pending().take(n as int));
        match self.mode {
            Mode::Rewound => {
                if self.cursor + n >= self.recorded.len() {
                    self.clear();
                } else {
                    self.cursor = self.cursor + n;
                }
            },
            _ => {
                self.cursor = self.cursor + n;
            },
        }
        out
    }

    /// Ends the recording and makes all that was recorded pending again, in
    /// the order in which it was read. Outside a recording nothing changes.
    pub fn backward(&mut self)
        ensures
            final(self)@ == old(self)@.rewound(),
            final(self).target() == old(self).target(),
    {
        proof {
            use_type_invariant(&*self);
        }
        match self.mode {
            Mode::Recording => {
                self.cursor = 0;
                if self.recorded.len() == 0 {
                    self.mode = Mode::Forward;
                    assert(self.recorded@ =~= Seq::<u8>::empty());
                } else {
                    self.mode = Mode::Rewound;
                }
            },
            _ => {},
        }
    }

    /// Ends the recording and lets go of what the reader has read since the
    /// mark. Bytes that are still pending stay the next to be read. Outside a
    /// recording nothing changes.
    pub fn commit(&mut self)
        ensures
            final(self)@ == old(self)@.committed(),
            final(self).target() == old(self).target(),
    {
        proof {
            use_type_invariant(&*self);
        }
        match self.mode {
            Mode::Recording => {
                let kept = copy_range(self.recorded.as_slice(), self.cursor, self.recorded.len());
                assert(kept@ =~= self@.pending());
                let next = if kept.len() == 0 {
                    Mode::Forward
                } else {
                    Mode::Rewound
                };
                self.cursor = 0;
                self.recorded = kept;
                self.mode = next;
                assert(kept@.len() == 0 ==> self.recorded@ =~= Seq::<u8>::empty());
            },
            _ => {},
        }
    }

    /// The bytes that a rewind would hand out, without taking them: all that
    /// was recorded while recording, what is left to read again once rewound.
    /// `None` where there are none.
    pub fn back_data(&self) -> (data: Option<&[u8]>)
        ensures
            match data {
                Some(bytes) => bytes@ == self@.held() && bytes@.len() > 0,
                None => self@.held().len() == 0,
            },
    {
        proof {
            use_type_invariant(self);
        }
        let from = match self.mode {
            Mode::Recording => 0,
            _ => self.cursor,
        };
        if from == self.recorded.len() {
            None
        } else {
            let all = self.recorded.as_slice();
            let bytes = &all[from..all.len()];
            assert(bytes@ =~= self@.held());
            Some(bytes)
        }
    }

    /// Gives up the wrapper and returns the wrapped stream. Nothing may be
    /// held: what was recorded has been read again or committed.
    pub fn into_inner(self) -> (inner: S)
        requires
            self@.drained(),
        ensures
            inner == self.target(),
    {
        self.target
    }

    /// Gives up the wrapper of a connection that is about to be closed and
    /// returns the wrapped stream; whatever is held is dropped.
    pub fn discard(self) -> (inner: S)
        ensures
            inner == self.target(),
    {
        self.target
    }
}

} // verus!
