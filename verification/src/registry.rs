//! The table of open windows that a connection keeps, keyed by window id,
//! together with the counter that hands out window ids.

use std::collections::HashMap;
use vstd::prelude::*;

verus! {

broadcast use vstd::std_specs::hash::group_hash_axioms;

/// The open windows of a connection, by id, and the next id to hand out.
/// Ids start at 1.
pub struct WindowRegistry<W> {
    windows: HashMap<usize, W>,
    next_window_id: usize,
}

/// The id that follows `id`; the counter wraps around past the largest id.
pub open spec fn id_after(id: usize) -> usize {
    if id == usize::MAX {
        0
    } else {
        (id + 1) as usize
    }
}

impl<W> WindowRegistry<W> {
    /// The registered windows, by id.
    pub closed spec fn windows(&self) -> Map<usize, W> {
        self.windows@
    }

    /// The id that the next call of `next_window_id` hands out.
    pub closed spec fn next_id(&self) -> usize {
        self.next_window_id
    }

    /// The counter has not wrapped, and every registered id was handed out
    /// before: it is at least 1 and below the next id.
    pub open spec fn ids_below_next(&self) -> bool {
        &&& 1 <= self.next_id()
        &&& forall|id: usize| #[trigger] self.windows().contains_key(id) ==> 1 <= id < self.next_id()
    }

    /// An empty registry whose first id is 1.
    pub fn new() -> (r: Self)
        ensures
            r.windows() == Map::<usize, W>::empty(),
            r.next_id() == 1,
            r.ids_below_next(),
    {
        WindowRegistry { windows: HashMap::new(), next_window_id: 1 }
    }

    /// Hand out the next window id and advance the counter.
    pub fn next_window_id(&mut self) -> (id: usize)
        ensures
            id == old(self).next_id(),
            final(self).next_id() == id_after(old(self).next_id()),
            old(self).next_id() < usize::MAX ==> final(self).next_id() == old(self).next_id() + 1,
            old(self).next_id() == usize::MAX ==> final(self).next_id() == 0,
            final(self).windows() == old(self).windows(),
            old(self).ids_below_next() && old(self).next_id() < usize::MAX ==> {
                &&& final(self).ids_below_next()
                &&& !old(self).windows().contains_key(id)
            },
    {
        let id = self.next_window_id;
        self.next_window_id = if id == usize::MAX {
            0
        } else {
            id + 1
        };
        proof {
            if old(self).ids_below_next() && id < usize::MAX {
                assert forall|k: usize| #[trigger] self.windows().contains_key(k) implies 1 <= k
                    < self.next_id() by {
                    assert(old(self).windows().contains_key(k));
                }
            }
        }
        id
    }

    /// The window registered under `window_id`, if any.
    pub fn window_by_id(&self, window_id: usize) -> (w: Option<&W>)
        ensures
            match w {
                Some(w) => self.windows().contains_key(window_id) && *w == self.windows()[window_id],
                None => !self.windows().contains_key(window_id),
            },
    {
        self.windows.get(&window_id)
    }

    /// Register `window` under `window_id`, replacing any window already
    /// registered there.
    pub fn register(&mut self, window_id: usize, window: W)
        ensures
            final(self).windows() == old(self).windows().insert(window_id, window),
            final(self).next_id() == old(self).next_id(),
            old(self).ids_below_next() && 1 <= window_id < old(self).next_id()
                ==> final(self).ids_below_next(),
    {
        self.windows.insert(window_id, window);
    }
}

/// Below the wrap point the counter moves on by exactly one; past the
/// largest id it wraps to 0.
pub proof fn lemma_id_after(id: usize)
    ensures
        id < usize::MAX ==> id_after(id) == id + 1,
        id == usize::MAX ==> id_after(id) == 0,
        id < usize::MAX ==> id_after(id) > id,
{
}

/// Starting from 1, the `n`-th id handed out is `n`, for every `n` below
/// the wrap point: the ids run 1, 2, 3, ... with none repeated.
pub proof fn lemma_ids_count_up(n: nat)
    requires
        1 <= n < usize::MAX,
    ensures
        ids_from_one(n) == n,
    decreases n,
{
    if n > 1 {
        lemma_ids_count_up((n - 1) as nat);
    }
}

/// The id handed out by the `n`-th call of `next_window_id` on a fresh
/// registry.
pub open spec fn ids_from_one(n: nat) -> usize
    decreases n,
{
    if n <= 1 {
        1
    } else {
        id_after(ids_from_one((n - 1) as nat))
    }
}

/// Ids handed out one after another from a registry whose ids are all below
/// the counter are fresh and distinct: the first is not registered, and the
/// second differs from it, as long as the counter does not wrap.
pub proof fn lemma_successive_ids_fresh<W>(windows: Map<usize, W>, next: usize)
    requires
        forall|id: usize| #[trigger] windows.contains_key(id) ==> 1 <= id < next,
        1 <= next < usize::MAX,
    ensures
        !windows.contains_key(next),
        id_after(next) != next,
        !windows.contains_key(id_after(next)),
{
}

} // verus!
