//! A fixed-capacity, ordered log of dialogue turns: a sliding window that
//! keeps insertion order and evicts the oldest turn first once full.

use vstd::prelude::*;
use vstd::math::min;
use crate::errors::CoreError;
use crate::turn::{Turn, TurnView, is_blank};

verus! {

/// One bounded append: `s` grows by `t` at the end, and if that exceeds
/// `cap`, the front is dropped until exactly the last `cap` turns remain.
pub open spec fn push_bounded(s: Seq<TurnView>, t: TurnView, cap: nat) -> Seq<TurnView> {
    let grown = s.push(t);
    if grown.len() <= cap {
        grown
    } else {
        grown.subrange(grown.len() - cap, grown.len() as int)
    }
}

/// A whole sequence of bounded appends, oldest first.
pub open spec fn append_all(s: Seq<TurnView>, ts: Seq<TurnView>, cap: nat) -> Seq<TurnView>
    decreases ts.len(),
{
    if ts.len() == 0 {
        s
    } else {
        append_all(push_bounded(s, ts[0], cap), ts.skip(1), cap)
    }
}

/// Bounded-window law: appending any sequence of turns to a valid history of
/// capacity `cap` leaves exactly `min(cap, total)` turns, and they are
/// exactly the most recent ones, in their original order.
pub proof fn lemma_bounded_window(s: Seq<TurnView>, ts: Seq<TurnView>, cap: nat)
    requires
        1 <= cap,
        s.len() <= cap,
    ensures
        ({
            let r = append_all(s, ts, cap);
            let all = s + ts;
            &&& r.len() == min(all.len() as int, cap as int)
            &&& r =~= all.subrange(all.len() - r.len(), all.len() as int)
        }),
    decreases ts.len(),
{
    if ts.len() == 0 {
        assert(append_all(s, ts, cap) =~= s + ts);
    } else {
        let s1 = push_bounded(s, ts[0], cap);
        assert(s1.len() <= cap);
        lemma_bounded_window(s1, ts.skip(1), cap);
        assert(s1 + ts.skip(1) =~= if s.len() < cap {
            s + ts
        } else {
            (s + ts).subrange(1, (s + ts).len() as int)
        });
    }
}

/// A bounded history: an ordered log of [`Turn`]s whose length never exceeds
/// its capacity. The view is the sequence of turn values, oldest first.
#[derive(Debug)]
pub struct BoundedHistory {
    turns: Vec<Turn>,
    capacity: usize,
}

impl View for BoundedHistory {
    type V = Seq<TurnView>;

    closed spec fn view(&self) -> Seq<TurnView> {
        self.turns@.map_values(|t: Turn| t@)
    }
}

impl BoundedHistory {
    /// The capacity the history was built with.
    pub closed spec fn cap(&self) -> nat {
        self.capacity as nat
    }

    /// The invariant: a positive capacity bounds the length, and every
    /// retained turn is well formed (carries non-blank text).
    pub open spec fn wf(&self) -> bool {
        &&& 1 <= self.cap()
        &&& self@.len() <= self.cap()
        &&& forall|i: int| 0 <= i < self@.len() ==> self@[i].wf()
    }

    /// Builds an empty history. A capacity of zero is invalid and is
    /// rejected at construction; any positive capacity is accepted.
    pub fn new(capacity: usize) -> (r: Result<BoundedHistory, CoreError>)
        ensures
            capacity == 0 <==> r is Err,
            r is Err ==> r == Result::<BoundedHistory, CoreError>::Err(CoreError::Configuration),
            r matches Ok(h) ==> h.wf() && h@ =~= Seq::<TurnView>::empty() && h.cap() == capacity,
    {
        if capacity == 0 {
            Err(CoreError::Configuration)
        } else {
            let h = BoundedHistory { turns: Vec::new(), capacity };
            assert(h@ =~= Seq::<TurnView>::empty());
            Ok(h)
        }
    }

    /// How many turns are retained now.
    pub fn len(&self) -> (r: usize)
        ensures
            r == self@.len(),
    {
        self.turns.len()
    }

    /// The capacity, as given at construction.
    pub fn capacity(&self) -> (r: usize)
        ensures
            r == self.cap(),
    {
        self.capacity
    }

    /// Appends a turn at the end; once the history is full, the oldest turn
    /// is evicted first. A blank turn is rejected and changes nothing; for a
    /// history built by [`BoundedHistory::new`] this cannot happen to a
    /// [`Turn`], whose constructor already refuses blank text.
    pub fn append(&mut self, turn: Turn) -> (r: Result<(), CoreError>)
        requires
            old(self).wf(),
        ensures
            final(self).wf(),
            final(self).cap() == old(self).cap(),
            is_blank(turn@.text) <==> r is Err,
            r is Err ==> r == Result::<(), CoreError>::Err(CoreError::Validation)
                && final(self)@ =~= old(self)@,
            r is Ok ==> final(self)@ =~= push_bounded(old(self)@, turn@, old(self).cap()),
    {
        if crate::turn::text_is_blank(turn.text().as_str()) {
            return Err(CoreError::Validation);
        }
        if self.turns.len() == self.capacity {
            self.turns.remove(0);
        }
        self.turns.push(turn);
        assert(final(self)@ =~= push_bounded(old(self)@, turn@, old(self).cap()));
        Ok(())
    }

    /// A point-in-time copy of the retained turns, oldest first. The copy is
    /// independent: later changes to the history do not show through it.
    pub fn snapshot(&self) -> (r: Vec<Turn>)
        ensures
            r@.map_values(|t: Turn| t@) =~= self@,
    {
        let mut out: Vec<Turn> = Vec::new();
        let n = self.turns.len();
        let mut i: usize = 0;
        while i < n
            invariant
                i <= n,
                n == self.turns@.len(),
                out@.len() == i,
                forall|j: int| 0 <= j < i ==> out@[j]@ == self@[j],
            decreases n - i,
        {
            out.push(self.turns[i].clone());
            i = i + 1;
        }
        assert(out@.map_values(|t: Turn| t@) =~= self@);
        out
    }

    /// Empties the history; the capacity is kept.
    pub fn clear(&mut self)
        requires
            old(self).wf(),
        ensures
            final(self).wf(),
            final(self).cap() == old(self).cap(),
            final(self)@ =~= Seq::<TurnView>::empty(),
    {
        self.turns.clear();
    }
}

} // verus!
