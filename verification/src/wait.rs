//! The table of visitors that wait for their mapper stream.
//!
//! Each waiting visitor is parked under a 32-bit correlation id. Ids are
//! handed out in counting order: the search for the next one starts just
//! above the id handed out last, wraps from `0xFFFF_FFFF` to `0` and passes
//! over every id that is still in use. An id that has just been given back
//! is therefore not handed out again until the count has come round.

use vstd::prelude::*;
use std::collections::HashMap;
use crate::error::{Error, ErrorView};

verus! {

broadcast use vstd::std_specs::hash::group_hash_axioms;

/// The number of correlation ids there are.
pub open spec fn id_space() -> int {
    0x1_0000_0000
}

/// The id reached from `start` by counting `k` steps up, wrapping around.
pub open spec fn id_after(start: u32, k: int) -> u32 {
    ((start + k) % id_space()) as u32
}

/// How many steps up lead from `last` to `id`, wrapping around: at least
/// one, and a whole round where `id` is `last` itself.
pub open spec fn distance(last: u32, id: u32) -> int {
    (id - last - 1) % id_space() + 1
}

/// Whether `id` is the first id not in `live` that counting up from `last`
/// meets, `last` itself coming last of all.
pub open spec fn is_next_free(live: Set<u32>, last: u32, id: u32) -> bool {
    &&& !live.contains(id)
    &&& forall|k: int| 1 <= k < distance(last, id) ==> live.contains(#[trigger] id_after(last, k))
}

/// Whether every id is in `live`.
pub open spec fn all_live(live: Set<u32>) -> bool {
    forall|id: u32| live.contains(id)
}

/// Counting up from `last` by the distance to `id` arrives at `id`.
pub proof fn lemma_distance(last: u32, id: u32)
    ensures
        1 <= distance(last, id) <= id_space(),
        id_after(last, distance(last, id)) == id,
{
}

/// There is at most one next free id.
pub proof fn lemma_next_free_unique(live: Set<u32>, last: u32, a: u32, b: u32)
    requires
        is_next_free(live, last, a),
        is_next_free(live, last, b),
    ensures
        a == b,
{
    lemma_distance(last, a);
    lemma_distance(last, b);
    if distance(last, a) < distance(last, b) {
        assert(live.contains(id_after(last, distance(last, a))));
    } else if distance(last, b) < distance(last, a) {
        assert(live.contains(id_after(last, distance(last, b))));
    }
}

/// Unless every id is live, there is a next free id.
pub proof fn lemma_next_free_exists(live: Set<u32>, last: u32)
    requires
        !all_live(live),
    ensures
        exists|id: u32| is_next_free(live, last, id),
{
    let free = choose|id: u32| !live.contains(id);
    lemma_distance(last, free);
    lemma_first_free(live, last, distance(last, free));
}

proof fn lemma_first_free(live: Set<u32>, last: u32, k: int)
    requires
        1 <= k <= id_space(),
        !live.contains(id_after(last, k)),
    ensures
        exists|id: u32| is_next_free(live, last, id),
    decreases k,
{
    if forall|j: int| 1 <= j < k ==> live.contains(#[trigger] id_after(last, j)) {
        let id = id_after(last, k);
        assert(distance(last, id) == k);
        assert(is_next_free(live, last, id));
    } else {
        let j = choose|j: int| 1 <= j < k && !live.contains(#[trigger] id_after(last, j));
        lemma_first_free(live, last, j);
    }
}

/// The id that follows `last` is free exactly when it is the next free id:
/// ids go up by one as long as nothing is in the way.
pub proof fn lemma_counts_up(live: Set<u32>, last: u32)
    requires
        last < 0xFFFF_FFFF,
        !live.contains((last + 1) as u32),
    ensures
        is_next_free(live, last, (last + 1) as u32),
{
    assert(distance(last, (last + 1) as u32) == 1);
}

/// Counting past the largest id goes on at zero: where the id handed out
/// last was `0xFFFF_FFFF`, and the ids below `n` are live but `n` is not,
/// the next free id is `n`.
pub proof fn lemma_wraps_to_zero(live: Set<u32>, n: u32)
    requires
        forall|j: u32| j < n ==> live.contains(j),
        !live.contains(n),
    ensures
        is_next_free(live, 0xFFFF_FFFFu32, n),
{
    assert forall|k: int| 1 <= k < distance(0xFFFF_FFFFu32, n) implies live.contains(
        #[trigger] id_after(0xFFFF_FFFFu32, k),
    ) by {
        assert(id_after(0xFFFF_FFFFu32, k) == (k - 1) as u32);
    }
}

/// No two live slots share an id: a slot parked under an id that is not
/// live is one slot more, and every slot that was live is still found under
/// its own id, unchanged.
pub proof fn lemma_ids_stay_apart<T>(slots: Map<u32, T>, id: u32, item: T)
    requires
        slots.dom().finite(),
        !slots.contains_key(id),
    ensures
        slots.insert(id, item).dom().finite(),
        slots.insert(id, item).len() == slots.len() + 1,
        forall|other: u32| #[trigger]
            slots.contains_key(other) ==> other != id && slots.insert(id, item)[other]
                == slots[other],
        slots.insert(id, item).remove(id) == slots,
{
    assert(slots.insert(id, item).remove(id) =~= slots);
}

/// The wait table: correlation ids bound to the slots of waiting visitors.
pub struct WaitFor<T> {
    identify: u32,
    wait_list: HashMap<u32, T>,
}

impl<T> View for WaitFor<T> {
    type V = Map<u32, T>;

    closed spec fn view(&self) -> Map<u32, T> {
        self.wait_list@
    }
}

impl<T> Default for WaitFor<T> {
    /// An empty table whose first id will be one.
    fn default() -> (w: Self)
        ensures
            w@ == Map::<u32, T>::empty(),
            w.cursor() == 0,
    {
        WaitFor::new()
    }
}

impl<T> WaitFor<T> {
    /// The id handed out last; the search for the next free id starts just
    /// above it.
    pub closed spec fn cursor(&self) -> u32 {
        self.identify
    }

    /// An empty table whose first id will be one.
    pub fn new() -> (w: Self)
        ensures
            w@ == Map::<u32, T>::empty(),
            w.cursor() == 0,
    {
        WaitFor { identify: 0, wait_list: HashMap::new() }
    }

    /// An empty table that goes on counting behind `last`.
    pub fn resuming_after(last: u32) -> (w: Self)
        ensures
            w@ == Map::<u32, T>::empty(),
            w.cursor() == last,
    {
        WaitFor { identify: last, wait_list: HashMap::new() }
    }

    /// The number of live slots.
    pub fn len(&self) -> (n: usize)
        ensures
            n == self@.len(),
            self@.dom().finite(),
    {
        self.wait_list.len()
    }

    /// Whether a slot is live under `id`.
    pub fn contains(&self, id: u32) -> (b: bool)
        ensures
            b == self@.contains_key(id),
    {
        self.wait_list.contains_key(&id)
    }

    /// Parks `item` under the next free id and returns that id. No live slot
    /// is touched. Fails with `ResourceExhausted`, and changes nothing,
    /// exactly where every id is live.
    pub fn push(&mut self, item: T) -> (r: Result<u32, Error>)
        ensures
            match r {
                Ok(id) => {
                    &&& is_next_free(old(self)@.dom(), old(self).cursor(), id)
                    &&& !old(self)@.contains_key(id)
                    &&& final(self)@ == old(self)@.insert(id, item)
                    &&& final(self).cursor() == id
                },
                Err(e) => {
                    &&& e@ == ErrorView::ResourceExhausted
                    &&& all_live(old(self)@.dom())
                    &&& final(self)@ == old(self)@
                    &&& final(self).cursor() == old(self).cursor()
                },
            },
    {
        let last: u32 = self.identify;
        let mut ident: u32 = if last == 0xFFFF_FFFF {
            0
        } else {
            last + 1
        };
        let mut scanned: u64 = 1;
        while scanned <= 0x1_0000_0000 && self.wait_list.contains_key(&ident)
            invariant
                1 <= scanned <= 0x1_0000_0001,
                ident == id_after(last, scanned as int),
                *self == *old(self),
                last == old(self).cursor(),
                forall|k: int|
                    1 <= k < scanned ==> self@.dom().contains(#[trigger] id_after(last, k)),
            decreases 0x1_0000_0001 - scanned,
        {
            ident = if ident == 0xFFFF_FFFF {
                0
            } else {
                ident + 1
            };
            scanned += 1;
        }
        if scanned > 0x1_0000_0000 {
            proof {
                assert forall|id: u32| self@.dom().contains(id) by {
                    lemma_distance(last, id);
                }
            }
            Err(Error::ResourceExhausted)
        } else {
            proof {
                assert(distance(last, ident) == scanned);
            }
            self.wait_list.insert(ident, item);
            self.identify = ident;
            Ok(ident)
        }
    }

    /// Takes the slot parked under `id` out of the table, if there is one.
    /// No other slot is touched.
    pub fn remove(&mut self, id: u32) -> (r: Option<T>)
        ensures
            match r {
                Some(item) => old(self)@.contains_key(id) && item == old(self)@[id],
                None => !old(self)@.contains_key(id),
            },
            final(self)@ == old(self)@.remove(id),
            final(self).cursor() == old(self).cursor(),
    {
        self.wait_list.remove(&id)
    }
}

} // verus!
