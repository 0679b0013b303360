use vstd::prelude::*;

verus! {

/// A clock trigger: no payload beyond "one interval has elapsed".
#[derive(Clone, Copy, PartialEq, Eq, Structural, Debug)]
pub struct Tick;

/// The interval clock and its single-slot rendezvous hand-off to the
/// consumer.
///
/// The clock produces one [`Tick`] per elapsed interval, starting after the
/// first full interval.  Ticks are never queued: the producer may only emit
/// when the consumer has taken (and thereby fully processed) every earlier
/// tick, so at most one tick is pending at any time and no drift accumulates
/// beyond one in-flight tick.  The counters record the hand-off; the actual
/// waiting is done by the loop that owns the clock.
pub struct Clock {
    pub interval_s: u64,
    pub emitted: u64,
    pub consumed: u64,
}

impl Clock {
    /// Every tick ever emitted has been consumed, except possibly the last.
    pub open spec fn wf(&self) -> bool {
        self.consumed <= self.emitted && self.emitted <= self.consumed + 1
    }

    /// How many ticks are in flight.
    pub open spec fn pending(&self) -> int {
        self.emitted - self.consumed
    }

    pub fn new(interval_s: u64) -> (c: Clock)
        ensures
            c.wf(),
            c.interval_s == interval_s,
            c.emitted == 0,
            c.consumed == 0,
    {
        Clock { interval_s, emitted: 0, consumed: 0 }
    }

    /// The producer's side of the rendezvous: fires after an interval has
    /// elapsed, and only once the consumer is idle again — never while a
    /// prior tick is still unprocessed.
    pub fn emit(&mut self) -> (t: Tick)
        requires
            old(self).wf(),
            old(self).emitted == old(self).consumed,
            old(self).emitted < u64::MAX,
        ensures
            final(self).wf(),
            final(self).pending() == 1,
            final(self).emitted == old(self).emitted + 1,
            final(self).consumed == old(self).consumed,
            final(self).interval_s == old(self).interval_s,
    {
        self.emitted = self.emitted + 1;
        Tick
    }

    /// The consumer's side: takes the one pending tick, after which the
    /// producer may fire again.  Each tick is consumed exactly once.
    pub fn consume(&mut self, _tick: Tick)
        requires
            old(self).wf(),
            old(self).emitted == old(self).consumed + 1,
        ensures
            final(self).wf(),
            final(self).pending() == 0,
            final(self).consumed == old(self).consumed + 1,
            final(self).emitted == old(self).emitted,
            final(self).interval_s == old(self).interval_s,
    {
        self.consumed = self.consumed + 1;
    }
}

/// The clock never runs ahead of an idle consumer: in every well-formed
/// clock state at most one tick is pending, so two ticks can never reach a
/// consumer that has not fully processed the first.
pub proof fn lemma_at_most_one_pending(c: Clock)
    requires
        c.wf(),
    ensures
        0 <= c.pending() <= 1,
{
}

} // verus!
