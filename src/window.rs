use crate::record::TickerRecord;
use vstd::prelude::*;

verus! {

/// How many records the display keeps.
pub const WINDOW_CAPACITY: usize = 8;

/// The window after `r` arrives at a window holding `s`: `r` goes last, and
/// when `s` is already full its oldest record leaves.
pub open spec fn pushed<T>(s: Seq<T>, r: T) -> Seq<T> {
    if s.len() >= WINDOW_CAPACITY {
        s.drop_first().push(r)
    } else {
        s.push(r)
    }
}

/// The window built by pushing every element of `s`, in order, into an empty one.
pub open spec fn filled<T>(s: Seq<T>) -> Seq<T>
    decreases s.len(),
{
    if s.len() == 0 {
        Seq::empty()
    } else {
        pushed(filled(s.drop_last()), s.last())
    }
}

/// The last `min(len, capacity)` elements of `s`, in their order.
pub open spec fn most_recent<T>(s: Seq<T>) -> Seq<T> {
    if s.len() <= WINDOW_CAPACITY {
        s
    } else {
        s.subrange(s.len() - WINDOW_CAPACITY, s.len() as int)
    }
}

/// Pushing any sequence of records, one by one, into an empty window leaves
/// exactly the most recent `min(n, capacity)` of them, in arrival order.
pub proof fn lemma_filled_keeps_most_recent<T>(s: Seq<T>)
    ensures
        filled(s) == most_recent(s),
        filled(s).len() == if s.len() <= WINDOW_CAPACITY { s.len() } else { WINDOW_CAPACITY as nat },
    decreases s.len(),
{
    if s.len() > 0 {
        let p = s.drop_last();
        lemma_filled_keeps_most_recent(p);
        if p.len() >= WINDOW_CAPACITY {
            assert(filled(s) =~= most_recent(s));
        } else {
            assert(filled(s) =~= most_recent(s));
        }
    } else {
        assert(filled(s) =~= most_recent(s));
    }
}

/// A record pushed into a full window evicts exactly the oldest record: the
/// other records keep their relative order and the new one comes last.
pub proof fn lemma_push_full_evicts_oldest<T>(s: Seq<T>, r: T)
    requires
        s.len() == WINDOW_CAPACITY,
    ensures
        pushed(s, r).len() == WINDOW_CAPACITY,
        forall|i: int| 0 <= i < WINDOW_CAPACITY - 1 ==> #[trigger] pushed(s, r)[i] == s[i + 1],
        pushed(s, r).last() == r,
        pushed(s, r) == s.subrange(1, WINDOW_CAPACITY as int).push(r),
{
    assert(pushed(s, r) =~= s.subrange(1, WINDOW_CAPACITY as int).push(r));
}

/// The rolling window of the most recent ticker records, oldest first.
pub struct DisplayWindow {
    records: Vec<TickerRecord>,
}

impl View for DisplayWindow {
    type V = Seq<TickerRecord>;

    closed spec fn view(&self) -> Seq<TickerRecord> {
        self.records@
    }
}

impl DisplayWindow {
    /// The window never holds more than its capacity.
    pub open spec fn wf(&self) -> bool {
        self@.len() <= WINDOW_CAPACITY
    }

    pub fn new() -> (r: DisplayWindow)
        ensures
            r.wf(),
            r@ == Seq::<TickerRecord>::empty(),
    {
        DisplayWindow { records: Vec::new() }
    }

    /// Appends `r`, evicting the oldest record first when the window is full.
    pub fn push(&mut self, r: TickerRecord)
        requires
            old(self).wf(),
        ensures
            final(self).wf(),
            final(self)@ == pushed(old(self)@, r),
    {
        if self.records.len() >= WINDOW_CAPACITY {
            self.records.remove(0);
        }
        self.records.push(r);
        proof {
            if old(self)@.len() >= WINDOW_CAPACITY {
                assert(self@ =~= old(self)@.drop_first().push(r));
            }
        }
    }

    pub fn len(&self) -> (n: usize)
        ensures
            n == self@.len(),
    {
        self.records.len()
    }

    /// The records, oldest first.
    pub fn records(&self) -> (v: &Vec<TickerRecord>)
        ensures
            v@ == self@,
    {
        &self.records
    }
}

} // verus!
