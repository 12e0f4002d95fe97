//! The copy between a visitor and its mapper stream, as a state machine.
//!
//! Bytes are copied in both directions at once. When one stream has no more
//! to give, the other is no longer read either and the copy ends well; when
//! either direction breaks, both stop and the error is reported.

use vstd::prelude::*;
use crate::error::Error;

verus! {

/// One of the two streams of a copy.
#[derive(Debug, Clone, Copy, PartialEq, Eq, Structural)]
pub enum Side {
    First,
    Second,
}

impl Side {
    pub open spec fn other(self) -> Side {
        match self {
            Side::First => Side::Second,
            Side::Second => Side::First,
        }
    }

    /// The stream at the other end of the copy.
    pub fn opposite(self) -> (side: Side)
        ensures
            side == self.other(),
    {
        match self {
            Side::First => Side::Second,
            Side::Second => Side::First,
        }
    }
}

/// What a step of the copy met.
pub enum Met {
    /// So many bytes were read from a stream and written to the other.
    Moved(usize),
    /// The stream has no more to give.
    Closed,
    /// Reading the stream, or writing what it gave, failed.
    Broke(Error),
}

/// What the copy does next.
pub enum Course {
    /// Both directions go on.
    Continue,
    /// No longer read this stream; the copy is over and ended well.
    Finish(Side),
    /// Stop both directions; the copy is over and failed.
    Abort(Error),
    /// The copy was over before.
    Over,
}

/// A copy between two streams.
#[derive(Debug, Clone, Copy, PartialEq, Eq, Structural)]
pub struct Forwarder {
    /// Whether the copy is over.
    pub over: bool,
    /// How many bytes went from the first stream to the second.
    pub first_to_second: u64,
    /// How many bytes went from the second stream to the first.
    pub second_to_first: u64,
}

/// `a + b`, or the largest count where that is too much to hold.
pub open spec fn capped_sum(a: u64, b: usize) -> u64 {
    if a + b <= u64::MAX {
        (a + b) as u64
    } else {
        u64::MAX
    }
}

impl Forwarder {
    /// What the copy does about `met`, which came up on the way from the
    /// stream `from` to the other.
    pub open spec fn course(self, from: Side, met: Met) -> Course {
        if self.over {
            Course::Over
        } else {
            match met {
                Met::Moved(_) => Course::Continue,
                Met::Closed => Course::Finish(from.other()),
                Met::Broke(e) => Course::Abort(e),
            }
        }
    }

    /// The copy after `met` came up on the way from the stream `from`.
    pub open spec fn after(self, from: Side, met: Met) -> Forwarder {
        if self.over {
            self
        } else {
            match met {
                Met::Moved(n) => match from {
                    Side::First => Forwarder {
                        first_to_second: capped_sum(self.first_to_second, n),
                        ..self
                    },
                    Side::Second => Forwarder {
                        second_to_first: capped_sum(self.second_to_first, n),
                        ..self
                    },
                },
                _ => Forwarder { over: true, ..self },
            }
        }
    }

    /// A copy that has moved nothing yet.
    pub fn new() -> (f: Forwarder)
        ensures
            f == (Forwarder { over: false, first_to_second: 0, second_to_first: 0 }),
    {
        Forwarder { over: false, first_to_second: 0, second_to_first: 0 }
    }

    /// Takes note of `met`, which came up on the way from the stream `from`
    /// to the other, and says what the copy does next.
    pub fn step(&mut self, from: Side, met: Met) -> (course: Course)
        ensures
            course == old(self).course(from, met),
            *final(self) == old(self).after(from, met),
    {
        if self.over {
            return Course::Over;
        }
        match met {
            Met::Moved(n) => {
                match from {
                    Side::First => {
                        self.first_to_second = self.first_to_second.saturating_add(n as u64);
                    },
                    Side::Second => {
                        self.second_to_first = self.second_to_first.saturating_add(n as u64);
                    },
                }
                Course::Continue
            },
            Met::Closed => {
                self.over = true;
                Course::Finish(from.opposite())
            },
            Met::Broke(e) => {
                self.over = true;
                Course::Abort(e)
            },
        }
    }
}

/// A copy ends once and for all: after a stream has closed or a direction
/// has broken, nothing that comes up changes the copy or its course.
pub proof fn lemma_copy_ends_once(f: Forwarder, from: Side, met: Met, later: Side, next: Met)
    requires
        !f.over,
        !(met is Moved),
    ensures
        f.after(from, met).over,
        f.after(from, met).course(later, next) == Course::Over,
        f.after(from, met).after(later, next) == f.after(from, met),
{
}

} // verus!
