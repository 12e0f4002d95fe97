//! The order of work within one poll of a session, and the bookkeeping of
//! its tasks.
//!
//! A session is polled from outside. Within one poll it asks the public port
//! for a new stream and then gives every task that is due one chance to go
//! on; it does so again as long as the port had a stream, so that a burst of
//! arrivals does not have to wait for the next wake.

use vstd::prelude::*;

verus! {

/// What a poll of the session does next.
#[derive(Debug, Clone, Copy, PartialEq, Eq, Structural)]
pub enum Turn {
    /// Ask the public port for a new stream.
    Accept,
    /// Give every task that is due one chance to go on.
    Sweep,
    /// Hand control back to the caller.
    Rest,
}

/// What happened in a poll of the session.
#[derive(Debug, Clone, Copy, PartialEq, Eq, Structural)]
pub enum Event {
    /// The public port was asked; `ready` says whether it had a stream.
    Accepted { ready: bool },
    /// The tasks were swept; `emitted` says whether one of them ended with
    /// something for the caller.
    Swept { emitted: bool },
}

/// The order of work within one poll of the session: the public port is
/// asked first, then the tasks are swept, and as long as the port had a
/// stream it is asked again after the sweep.
#[derive(Debug, Clone, Copy, PartialEq, Eq, Structural)]
pub struct Schedule {
    pub turn: Turn,
    /// Whether the public port had a stream when it was last asked.
    pub again: bool,
}

impl Schedule {
    /// The schedule after `event`. An event that does not belong to the
    /// turn changes nothing.
    pub open spec fn after(self, event: Event) -> Schedule {
        match (self.turn, event) {
            (Turn::Accept, Event::Accepted { ready }) => Schedule { turn: Turn::Sweep, again: ready },
            (Turn::Sweep, Event::Swept { emitted }) => Schedule {
                turn: if !emitted && self.again {
                    Turn::Accept
                } else {
                    Turn::Rest
                },
                again: self.again,
            },
            _ => self,
        }
    }

    /// The schedule at the start of a poll: the public port comes first.
    pub open spec fn start() -> Schedule {
        Schedule { turn: Turn::Accept, again: false }
    }

    /// The schedule at the start of a poll.
    pub fn begin() -> (s: Schedule)
        ensures
            s == Schedule::start(),
    {
        Schedule { turn: Turn::Accept, again: false }
    }

    /// Moves on after `event`.
    pub fn advance(self, event: Event) -> (s: Schedule)
        ensures
            s == self.after(event),
    {
        match (self.turn, event) {
            (Turn::Accept, Event::Accepted { ready }) => Schedule { turn: Turn::Sweep, again: ready },
            (Turn::Sweep, Event::Swept { emitted }) => Schedule {
                turn: if !emitted && self.again {
                    Turn::Accept
                } else {
                    Turn::Rest
                },
                again: self.again,
            },
            _ => self,
        }
    }
}

/// Neither side starves the other. Every poll asks the public port before
/// anything else. Whatever the port answers, the tasks are swept next, so a
/// port that always has a stream cannot keep them from going on. And after a
/// sweep that left nothing for the caller, a port that had a stream is asked
/// again within the same poll, so that a burst of arrivals is taken in
/// without waiting for another wake; the poll rests only once the port had
/// nothing or a task has something for the caller.
pub proof fn lemma_schedule_is_fair(ready: bool, emitted: bool)
    ensures
        Schedule::start().turn == Turn::Accept,
        Schedule::start().after(Event::Accepted { ready }).turn == Turn::Sweep,
        Schedule::start().after(Event::Accepted { ready }).after(Event::Swept { emitted }).turn
            == if ready && !emitted {
            Turn::Accept
        } else {
            Turn::Rest
        },
{
}

/// Wherever a poll stands, being asked at the port leads to a sweep, and a
/// sweep leads back to the port exactly when the port had a stream and no
/// task had anything for the caller.
pub proof fn lemma_schedule_step(s: Schedule, ready: bool, emitted: bool)
    ensures
        s.turn == Turn::Accept ==> s.after(Event::Accepted { ready }) == (Schedule {
            turn: Turn::Sweep,
            again: ready,
        }),
        s.turn == Turn::Sweep ==> (s.after(Event::Swept { emitted }).turn == Turn::Accept <==> (
        s.again && !emitted)),
        s.turn == Turn::Sweep ==> (s.after(Event::Swept { emitted }).turn == Turn::Rest <==> !(
        s.again && !emitted)),
        s.turn == Turn::Rest ==> s.after(Event::Accepted { ready }) == s && s.after(
            Event::Swept { emitted },
        ) == s,
{
}

/// The tasks of a session: those that wait for the next poll, and those
/// that the poll under way still has to look at. A task is an opaque value
/// of the runtime.
pub struct Tasks<F> {
    waiting: Vec<F>,
    due: Vec<F>,
}

impl<F> Tasks<F> {
    /// The tasks that wait for the next poll, oldest first.
    pub closed spec fn waiting(&self) -> Seq<F> {
        self.waiting@
    }

    /// The tasks that the poll under way still has to look at; the last one
    /// is looked at first.
    pub closed spec fn due(&self) -> Seq<F> {
        self.due@
    }

    /// Every task of the session, as a multiset.
    pub open spec fn all(&self) -> vstd::multiset::Multiset<F> {
        self.waiting().to_multiset().add(self.due().to_multiset())
    }

    /// No tasks.
    pub fn new() -> (tasks: Self)
        ensures
            tasks.waiting() == Seq::<F>::empty(),
            tasks.due() == Seq::<F>::empty(),
    {
        Tasks { waiting: Vec::new(), due: Vec::new() }
    }

    /// Starts a poll: every task that waited is due, behind those that were
    /// due already.
    pub fn begin(&mut self)
        ensures
            final(self).waiting() == Seq::<F>::empty(),
            final(self).due() == old(self).due() + old(self).waiting(),
    {
        self.due.append(&mut self.waiting);
    }

    /// Adds a task; it is the next to be looked at.
    pub fn spawn(&mut self, task: F)
        ensures
            final(self).waiting() == old(self).waiting(),
            final(self).due() == old(self).due().push(task),
    {
        self.due.push(task);
    }

    /// Takes out the next task that is due, if any is.
    pub fn next(&mut self) -> (task: Option<F>)
        ensures
            final(self).waiting() == old(self).waiting(),
            match task {
                Some(t) => old(self).due().len() > 0 && t == old(self).due().last() && final(self).due() == old(self).due().drop_last(),
                None => old(self).due().len() == 0 && final(self).due() == old(self).due(),
            },
    {
        self.due.pop()
    }

    /// Puts back a task that could not go on; it waits for the next poll.
    pub fn keep(&mut self, task: F)
        ensures
            final(self).waiting() == old(self).waiting().push(task),
            final(self).due() == old(self).due(),
    {
        self.waiting.push(task);
    }

    /// Ends the poll early: what is still due waits for the next poll.
    pub fn suspend(&mut self)
        ensures
            final(self).waiting() == old(self).waiting() + old(self).due(),
            final(self).due() == Seq::<F>::empty(),
    {
        self.waiting.append(&mut self.due);
    }

    /// The number of tasks that wait for the next poll.
    pub fn remaining(&self) -> (n: usize)
        ensures
            n == self.waiting().len(),
    {
        self.waiting.len()
    }
}

/// Starting a poll, putting a task back and ending a poll early neither lose
/// a task nor make one twice; a new task is one more, and a task taken out
/// is one less.
pub proof fn lemma_tasks_are_kept<F>(waiting: Seq<F>, due: Seq<F>, task: F)
    ensures
        Seq::<F>::empty().to_multiset().add((due + waiting).to_multiset())
            == waiting.to_multiset().add(due.to_multiset()),
        (waiting + due).to_multiset().add(Seq::<F>::empty().to_multiset())
            == waiting.to_multiset().add(due.to_multiset()),
        waiting.push(task).to_multiset().add(due.to_multiset()) == waiting.to_multiset().add(
            due.to_multiset(),
        ).insert(task),
        waiting.to_multiset().add(due.push(task).to_multiset()) == waiting.to_multiset().add(
            due.to_multiset(),
        ).insert(task),
        due.len() > 0 ==> waiting.to_multiset().add(due.drop_last().to_multiset()).insert(
            due.last(),
        ) == waiting.to_multiset().add(due.to_multiset()),
{
    broadcast use vstd::seq_lib::group_to_multiset_ensures;

    vstd::seq_lib::lemma_multiset_commutative(due, waiting);
    vstd::seq_lib::lemma_multiset_commutative(waiting, due);
    assert(Seq::<F>::empty().to_multiset() =~= vstd::multiset::Multiset::<F>::empty());
    assert(Seq::<F>::empty().to_multiset().add((due + waiting).to_multiset()) =~= waiting.to_multiset().add(
        due.to_multiset(),
    ));
    assert((waiting + due).to_multiset().add(Seq::<F>::empty().to_multiset()) =~= waiting.to_multiset().add(
        due.to_multiset(),
    ));
    assert(waiting.push(task).to_multiset().add(due.to_multiset()) =~= waiting.to_multiset().add(
        due.to_multiset(),
    ).insert(task));
    assert(waiting.to_multiset().add(due.push(task).to_multiset()) =~= waiting.to_multiset().add(
        due.to_multiset(),
    ).insert(task));
    if due.len() > 0 {
        assert(due.drop_last().push(due.last()) =~= due);
        assert(waiting.to_multiset().add(due.drop_last().to_multiset()).insert(due.last())
            =~= waiting.to_multiset().add(due.drop_last().push(due.last()).to_multiset()));
    }
}

} // verus!
