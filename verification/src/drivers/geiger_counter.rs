use vstd::prelude::*;

verus! {

/// Pulse counts of the last sixty seconds, kept in a ring buffer together
/// with their running sum.
pub struct GeigerCounter {
    counts: [u16; 60],
    index: usize,
    sum: u32,
    filled: u8,
}

/// The sum of a sequence of counts.
pub open spec fn sum_counts(s: Seq<u16>) -> int
    decreases s.len(),
{
    if s.len() == 0 {
        0
    } else {
        sum_counts(s.drop_last()) + s.last()
    }
}

/// Counts per minute of a window of one-second counts: the sum scaled to
/// sixty seconds.
pub open spec fn counts_per_minute(window: Seq<u16>) -> int {
    sum_counts(window) * 60 / (window.len() as int)
}

/// The window a tick leaves: the new count appended, and the oldest count
/// dropped once sixty are kept.
pub open spec fn window_after_tick(window: Seq<u16>, count: u16) -> Seq<u16> {
    if window.len() < 60 {
        window.push(count)
    } else {
        window.drop_first().push(count)
    }
}

/// The window left by recording `ticks` one by one, oldest first, from an
/// empty counter.
pub open spec fn window_after_ticks(ticks: Seq<u16>) -> Seq<u16>
    decreases ticks.len(),
{
    if ticks.len() == 0 {
        Seq::empty()
    } else {
        window_after_tick(window_after_ticks(ticks.drop_last()), ticks.last())
    }
}

/// After any run of ticks the window holds the last sixty counts (all of
/// them while fewer were recorded), so the seconds collected are
/// min(ticks, 60).
pub proof fn lemma_window_after_ticks(ticks: Seq<u16>)
    ensures
        window_after_ticks(ticks) == ticks.skip(
            if ticks.len() > 60 {
                ticks.len() - 60
            } else {
                0
            },
        ),
        window_after_ticks(ticks).len() == if ticks.len() > 60 {
            60
        } else {
            ticks.len() as int
        },
    decreases ticks.len(),
{
    if ticks.len() > 0 {
        let dl = ticks.drop_last();
        lemma_window_after_ticks(dl);
        if dl.len() < 60 {
            assert(dl.skip(0).push(ticks.last()) =~= ticks.skip(0));
        } else {
            assert(dl.skip(dl.len() - 60).drop_first().push(ticks.last()) =~= ticks.skip(
                ticks.len() - 60,
            ));
        }
    } else {
        assert(ticks.skip(0) =~= Seq::<u16>::empty());
    }
}

proof fn lemma_sum_update(s: Seq<u16>, i: int, x: u16)
    requires
        0 <= i < s.len(),
    ensures
        sum_counts(s.update(i, x)) == sum_counts(s) - s[i] + x,
    decreases s.len(),
{
    let u = s.update(i, x);
    if i == s.len() - 1 {
        assert(u.drop_last() =~= s.drop_last());
    } else {
        lemma_sum_update(s.drop_last(), i, x);
        assert(u.drop_last() =~= s.drop_last().update(i, x));
    }
}

proof fn lemma_sum_push(s: Seq<u16>, x: u16)
    ensures
        sum_counts(s.push(x)) == sum_counts(s) + x,
{
    assert(s.push(x).drop_last() =~= s);
}

proof fn lemma_sum_first(s: Seq<u16>)
    requires
        s.len() > 0,
    ensures
        sum_counts(s) == s[0] + sum_counts(s.drop_first()),
    decreases s.len(),
{
    if s.len() > 1 {
        lemma_sum_first(s.drop_last());
        assert(s.drop_last().drop_first() =~= s.drop_first().drop_last());
        assert(s.drop_first().last() == s.last());
    } else {
        assert(s.drop_last() =~= Seq::<u16>::empty());
        assert(s.drop_first() =~= Seq::<u16>::empty());
    }
}

proof fn lemma_sum_zeros(s: Seq<u16>)
    requires
        forall|j: int| 0 <= j < s.len() ==> s[j] == 0,
    ensures
        sum_counts(s) == 0,
    decreases s.len(),
{
    if s.len() > 0 {
        lemma_sum_zeros(s.drop_last());
    }
}

proof fn lemma_sum_bounds(s: Seq<u16>)
    ensures
        0 <= sum_counts(s) <= s.len() * 0xffff,
    decreases s.len(),
{
    if s.len() > 0 {
        lemma_sum_bounds(s.drop_last());
    }
}

impl GeigerCounter {
    /// The counts of the seconds collected so far, oldest first, at most
    /// sixty of them.
    pub closed spec fn window(&self) -> Seq<u16> {
        if self.filled < 60 {
            self.counts@.take(self.filled as int)
        } else {
            self.counts@.skip(self.index as int) + self.counts@.take(self.index as int)
        }
    }

    /// The fields: (counts, index of the slot the next tick fills, running
    /// sum, seconds collected).
    pub closed spec fn model(&self) -> (Seq<u16>, int, int, int) {
        (self.counts@, self.index as int, self.sum as int, self.filled as int)
    }

    #[verifier::type_invariant]
    closed spec fn wf(&self) -> bool {
        &&& self.sum == sum_counts(self.counts@)
        &&& self.index < 60
        &&& self.filled <= 60
        &&& self.filled < 60 ==> self.index == self.filled
        &&& self.filled < 60 ==> forall|j: int| self.filled <= j < 60 ==> self.counts@[j] == 0
        &&& self.sum == sum_counts(self.window())
    }

    pub fn new() -> (r: Self)
        ensures
            r.window() == Seq::<u16>::empty(),
            r.model() == (Seq::new(60, |j: int| 0u16), 0int, 0int, 0int),
    {
        let counts = [0u16; 60];
        proof {
            lemma_sum_zeros(counts@);
        }
        let r = Self { index: 0, sum: 0, filled: 0, counts };
        assert(r.window() =~= Seq::<u16>::empty());
        assert(r.counts@ =~= Seq::new(60, |j: int| 0u16));
        r
    }

    /// Records the pulses counted during the last second.
    pub fn tick(&mut self, count: u16)
        ensures
            final(self).window() == window_after_tick(old(self).window(), count),
            final(self).window().len() <= 60,
            final(self).model().0 == old(self).model().0.update(old(self).model().1, count),
            final(self).model().1 == (old(self).model().1 + 1) % 60,
            final(self).model().3 == if old(self).model().3 < 60 {
                old(self).model().3 + 1
            } else {
                60
            },
            final(self).model().2 == sum_counts(final(self).model().0),
            final(self).model().2 <= 60 * 0xffff,
    {
        proof {
            use_type_invariant(&*self);
        }
        let i = self.index;
        let ghost w = self.window();
        let ghost old_counts = self.counts@;
        let old_count = self.counts[i];
        proof {
            if self.filled == 60 {
                assert(w[0] == old_counts[i as int]);
                lemma_sum_first(w);
                lemma_sum_bounds(w.drop_first());
            } else {
                assert(old_count == 0);
            }
        }
        let mut counts = self.counts;
        counts[i] = count;
        proof {
            lemma_sum_update(old_counts, i as int, count);
        }
        let sum = self.sum - old_count as u32;
        let ghost nw = window_after_tick(w, count);
        proof {
            lemma_sum_push(if w.len() < 60 { w } else { w.drop_first() }, count);
            lemma_sum_bounds(nw);
        }
        let sum = sum + count as u32;
        // Advance index, wrapping at 60
        let index = if i == 59 {
            0
        } else {
            i + 1
        };
        let filled = if self.filled < 60 {
            self.filled + 1
        } else {
            self.filled
        };
        proof {
            let c = counts@;
            if self.filled < 60 {
                if filled < 60 {
                    assert(c.take(filled as int) =~= w.push(count));
                } else {
                    assert(c.skip(0) + c.take(0) =~= w.push(count));
                }
            } else {
                if i < 59 {
                    assert(c.skip(index as int) + c.take(index as int) =~= w.drop_first().push(
                        count,
                    ));
                } else {
                    assert(c.skip(0) + c.take(0) =~= w.drop_first().push(count));
                }
            }
        }
        *self = Self { counts, index, sum, filled };
    }

    /// Counts per minute: the sum of the window scaled to sixty seconds,
    /// even before sixty seconds are collected.
    pub fn cpm(&self) -> (r: u32)
        requires
            self.window().len() > 0,
        ensures
            r == counts_per_minute(self.window()),
    {
        proof {
            use_type_invariant(self);
            lemma_sum_bounds(self.window());
        }
        self.sum * 60 / self.filled as u32
    }

    /// How many seconds of data are in the buffer
    pub fn seconds_collected(&self) -> (r: u8)
        ensures
            r == self.window().len(),
            r <= 60,
    {
        proof {
            use_type_invariant(self);
        }
        self.filled
    }
}

} // verus!
