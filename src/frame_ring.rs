//! The ring of frame slots and the count of work in flight.
//!
//! Each slot owns one command buffer, an image-acquired semaphore, a
//! render-finished semaphore and a frame-complete fence. The ring tracks,
//! per slot, whether its last submission has not been waited on yet.
use vstd::prelude::*;

verus! {

/// The number of `true` entries of `s`.
pub open spec fn count_true(s: Seq<bool>) -> nat
    decreases s.len(),
{
    if s.len() == 0 {
        0
    } else {
        count_true(s.drop_last()) + if s.last() {
            1nat
        } else {
            0nat
        }
    }
}

/// There are no more `true` entries than entries.
pub proof fn lemma_count_true_bounded(s: Seq<bool>)
    ensures
        count_true(s) <= s.len(),
    decreases s.len(),
{
    if s.len() > 0 {
        lemma_count_true_bounded(s.drop_last());
    }
}

proof fn lemma_count_true_update(s: Seq<bool>, i: int, v: bool)
    requires
        0 <= i < s.len(),
    ensures
        count_true(s.update(i, v)) + (if s[i] {
            1int
        } else {
            0int
        }) == count_true(s) + (if v {
            1int
        } else {
            0int
        }),
    decreases s.len(),
{
    let t = s.update(i, v);
    if i == s.len() - 1 {
        assert(t.drop_last() =~= s.drop_last());
    } else {
        assert(t.drop_last() =~= s.drop_last().update(i, v));
        lemma_count_true_update(s.drop_last(), i, v);
    }
}

proof fn lemma_count_true_prefix(s: Seq<bool>, i: int)
    requires
        0 <= i < s.len(),
    ensures
        count_true(s.take(i + 1)) == count_true(s.take(i)) + if s[i] {
            1nat
        } else {
            0nat
        },
{
    assert(s.take(i + 1).drop_last() =~= s.take(i));
}

/// The slots of the ring and the cursor that walks them.
pub struct FrameRing {
    cursor: usize,
    pending: Vec<bool>,
}

impl FrameRing {
    /// The slot the next frame uses.
    pub closed spec fn cursor_spec(&self) -> nat {
        self.cursor as nat
    }

    /// Per slot: its last submission has not been waited on yet.
    pub closed spec fn pending_spec(&self) -> Seq<bool> {
        self.pending@
    }

    pub open spec fn frames_in_flight_spec(&self) -> nat {
        self.pending_spec().len()
    }

    /// The number of submissions not waited on yet.
    pub open spec fn in_flight_spec(&self) -> nat {
        count_true(self.pending_spec())
    }

    pub open spec fn wf(&self) -> bool {
        &&& self.frames_in_flight_spec() > 0
        &&& self.cursor_spec() < self.frames_in_flight_spec()
    }

    /// A ring of `n` slots with nothing in flight; the cursor is on slot 0.
    pub fn new(n: usize) -> (r: FrameRing)
        requires
            n > 0,
        ensures
            r.wf(),
            r.frames_in_flight_spec() == n,
            r.cursor_spec() == 0,
            forall|i: int| 0 <= i < n ==> !#[trigger] r.pending_spec()[i],
            r.in_flight_spec() == 0,
    {
        let mut pending: Vec<bool> = Vec::new();
        let mut i: usize = 0;
        while i < n
            invariant
                0 <= i <= n,
                pending@.len() == i,
                forall|j: int| 0 <= j < i ==> !#[trigger] pending@[j],
                count_true(pending@) == 0,
            decreases n - i,
        {
            proof {
                assert(pending@.push(false).drop_last() =~= pending@);
            }
            pending.push(false);
            i = i + 1;
        }
        FrameRing { cursor: 0, pending }
    }

    pub fn cursor(&self) -> (r: usize)
        ensures
            r == self.cursor_spec(),
    {
        self.cursor
    }

    pub fn frames_in_flight(&self) -> (r: usize)
        ensures
            r == self.frames_in_flight_spec(),
    {
        self.pending.len()
    }

    /// Whether slot `i` has a submission that was not waited on yet.
    pub fn is_pending(&self, i: usize) -> (r: bool)
        requires
            i < self.frames_in_flight_spec(),
        ensures
            r == self.pending_spec()[i as int],
    {
        self.pending[i]
    }

    /// The number of submissions not waited on yet.
    pub fn in_flight(&self) -> (r: usize)
        ensures
            r == self.in_flight_spec(),
    {
        let mut k: usize = 0;
        let mut i: usize = 0;
        while i < self.pending.len()
            invariant
                0 <= i <= self.pending@.len(),
                k == count_true(self.pending@.take(i as int)),
                k <= i,
            decreases self.pending.len() - i,
        {
            proof {
                lemma_count_true_prefix(self.pending@, i as int);
            }
            if self.pending[i] {
                k = k + 1;
            }
            i = i + 1;
        }
        proof {
            assert(self.pending@.take(i as int) =~= self.pending@);
        }
        k
    }

    /// The fence of the current slot was waited on: its last submission is
    /// done.
    pub fn complete_current(&mut self)
        requires
            old(self).wf(),
        ensures
            final(self).wf(),
            final(self).cursor_spec() == old(self).cursor_spec(),
            final(self).pending_spec() == old(self).pending_spec().update(
                old(self).cursor_spec() as int,
                false,
            ),
    {
        let c = self.cursor;
        self.pending.set(c, false);
    }

    /// The current slot's command buffer was submitted. Its fence must have
    /// been waited on first.
    pub fn mark_submitted(&mut self)
        requires
            old(self).wf(),
            !old(self).pending_spec()[old(self).cursor_spec() as int],
        ensures
            final(self).wf(),
            final(self).cursor_spec() == old(self).cursor_spec(),
            final(self).pending_spec() == old(self).pending_spec().update(
                old(self).cursor_spec() as int,
                true,
            ),
            final(self).in_flight_spec() == old(self).in_flight_spec() + 1,
    {
        proof {
            lemma_count_true_update(self.pending@, self.cursor as int, true);
        }
        let c = self.cursor;
        self.pending.set(c, true);
    }

    /// Moves the cursor to the next slot, wrapping after the last.
    pub fn advance(&mut self)
        requires
            old(self).wf(),
        ensures
            final(self).wf(),
            final(self).cursor_spec() == (old(self).cursor_spec() + 1) % old(
                self,
            ).frames_in_flight_spec(),
            final(self).pending_spec() == old(self).pending_spec(),
    {
        let n = self.pending.len();
        let c = self.cursor;
        if c + 1 == n {
            assert((c + 1) as int % n as int == 0) by (nonlinear_arith)
                requires
                    c + 1 == n,
                    n > 0,
            ;
            self.cursor = 0;
        } else {
            assert((c + 1) as int % n as int == c + 1) by (nonlinear_arith)
                requires
                    c + 1 < n,
            ;
            self.cursor = c + 1;
        }
    }
}

/// However many frames were run, the submissions not yet waited on never
/// outnumber the slots.
pub proof fn lemma_in_flight_bounded(ring: &FrameRing)
    ensures
        ring.in_flight_spec() <= ring.frames_in_flight_spec(),
{
    lemma_count_true_bounded(ring.pending_spec());
}

} // verus!
