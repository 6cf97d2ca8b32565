//! Bounded, most-recent-first history of optional metric samples.
//!
//! Each metric of a device keeps one such history. A `None` entry is a
//! positional gap: the tick happened but no reading was obtained, which is
//! distinct from a reading of zero. Index 0 is the most recent sample. The
//! buffer is trimmed to a fixed capacity after every insertion, dropping the
//! oldest entries first; retention is deliberately independent of how much
//! of the history any renderer consumed.

use std::collections::VecDeque;
use vstd::prelude::*;

verus! {

/// Number of samples a metric history retains.
pub const HISTORY_CAPACITY: usize = 5000;

/// Clips a would-be history length to the capacity.
pub open spec fn cap_len(n: int) -> int {
    if n <= HISTORY_CAPACITY as int {
        n
    } else {
        HISTORY_CAPACITY as int
    }
}

/// The history that results from pushing `v` onto `h`: `v` is prepended and
/// the oldest entries beyond the capacity are dropped.
pub open spec fn pushed(h: Seq<Option<u64>>, v: Option<u64>) -> Seq<Option<u64>> {
    (seq![v] + h).take(cap_len(h.len() as int + 1))
}

/// The history that results from pushing each value of `vs` in order onto `h`.
pub open spec fn pushed_all(h: Seq<Option<u64>>, vs: Seq<Option<u64>>) -> Seq<Option<u64>>
    decreases vs.len(),
{
    if vs.len() == 0 {
        h
    } else {
        pushed_all(pushed(h, vs[0]), vs.skip(1))
    }
}

/// Most-recent-first samples of one metric, at most `HISTORY_CAPACITY` long.
pub struct GraphViewerData {
    historical: VecDeque<Option<u64>>,
}

impl View for GraphViewerData {
    type V = Seq<Option<u64>>;

    closed spec fn view(&self) -> Seq<Option<u64>> {
        self.historical@
    }
}

impl GraphViewerData {
    pub fn new() -> (r: Self)
        ensures
            r@ == Seq::<Option<u64>>::empty(),
    {
        Self { historical: VecDeque::new() }
    }

    /// Prepends `value`, then drops the oldest entries until the length is
    /// back within the capacity. Never fails.
    pub fn update(&mut self, value: Option<u64>)
        ensures
            final(self)@ == pushed(old(self)@, value),
            final(self)@.len() <= HISTORY_CAPACITY,
    {
        self.historical.push_front(value);
        self.trim_length();
    }

    fn trim_length(&mut self)
        ensures
            final(self)@ == old(self)@.take(cap_len(old(self)@.len() as int)),
    {
        let max_len: usize = HISTORY_CAPACITY;

        while self.historical.len() > max_len
            invariant
                max_len == HISTORY_CAPACITY,
                self.historical@.len() <= old(self)@.len(),
                self.historical@.len() >= cap_len(old(self)@.len() as int),
                self.historical@ == old(self)@.take(self.historical@.len() as int),
            decreases self.historical@.len(),
        {
            self.historical.pop_back();
        }
    }

    /// The sample at age `index` (0 = most recent). Out of bounds reads as
    /// `None`, as does a stored gap.
    pub fn get_value_at(&self, index: usize) -> (r: Option<u64>)
        ensures
            r == if index < self@.len() {
                self@[index as int]
            } else {
                None::<u64>
            },
    {
        if index < self.historical.len() {
            self.historical[index]
        } else {
            None
        }
    }
}

/// After any sequence of pushes the history holds at most `HISTORY_CAPACITY`
/// samples, the most recently pushed values stand first (index 0 is the most
/// recent), and entries older than the pushes are the survivors of the
/// starting history, in order.
pub proof fn lemma_pushed_all_properties(h: Seq<Option<u64>>, vs: Seq<Option<u64>>)
    requires
        h.len() <= HISTORY_CAPACITY,
    ensures
        pushed_all(h, vs).len() == cap_len(h.len() as int + vs.len() as int),
        pushed_all(h, vs).len() <= HISTORY_CAPACITY,
        forall|i: int|
            0 <= i < cap_len(vs.len() as int) ==> pushed_all(h, vs)[i] == vs[vs.len() - 1 - i],
        forall|i: int|
            vs.len() <= i < cap_len(h.len() as int + vs.len() as int) ==> pushed_all(h, vs)[i] == h[i - vs.len()],
    decreases vs.len(),
{
    if vs.len() == 0 {
        assert(pushed_all(h, vs) == h);
    } else {
        let h2 = pushed(h, vs[0]);
        let vs2 = vs.skip(1);
        assert(h2.len() == cap_len(h.len() as int + 1));
        assert(h2[0] == vs[0]);
        assert(forall|j: int| 0 <= j < h2.len() - 1 ==> h2[j + 1] == h[j]);
        lemma_pushed_all_properties(h2, vs2);
        let r = pushed_all(h, vs);
        assert(r == pushed_all(h2, vs2));
        assert forall|i: int| 0 <= i < cap_len(vs.len() as int) implies r[i] == vs[vs.len() - 1
            - i] by {
            if i < cap_len(vs2.len() as int) {
                assert(r[i] == vs2[vs2.len() - 1 - i]);
                assert(vs2[vs2.len() - 1 - i] == vs[vs.len() - 1 - i]);
            } else {
                assert(i == vs2.len());
                assert(r[i] == h2[i - vs2.len()]);
                assert(h2[0] == vs[0]);
            }
        }
        assert forall|i: int| vs.len() <= i < cap_len(h.len() as int + vs.len() as int) implies r[i] == h[i
            - vs.len()] by {
            assert(r[i] == h2[i - vs2.len()]);
            assert(h2[(i - vs.len()) + 1] == h[i - vs.len()]);
        }
    }
}

/// Pushing at least `HISTORY_CAPACITY` values leaves exactly the last
/// `HISTORY_CAPACITY` pushed values, the most recent at index 0; nothing of
/// the prior history survives.
pub proof fn lemma_history_keeps_last_capacity(h: Seq<Option<u64>>, vs: Seq<Option<u64>>)
    requires
        h.len() <= HISTORY_CAPACITY,
        vs.len() >= HISTORY_CAPACITY,
    ensures
        pushed_all(h, vs).len() == HISTORY_CAPACITY,
        forall|i: int|
            0 <= i < HISTORY_CAPACITY ==> pushed_all(h, vs)[i] == vs[vs.len() - 1 - i],
{
    lemma_pushed_all_properties(h, vs);
}

} // verus!
