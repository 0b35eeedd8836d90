use vstd::prelude::*;

verus! {

/// Number of ticks in one unit of curve time: tick `k` stands for time
/// `k / TICKS_PER_UNIT`, so consecutive ticks are exactly one thousandth apart.
pub const TICKS_PER_UNIT: u32 = 1000;

/// A finite, single-pass sequence of sampling times over `[0, 1]`.
///
/// It yields the ticks `0, 1, ..., TICKS_PER_UNIT` in order and then stops:
/// the next tick would stand for a time above 1.
#[derive(Clone, Copy, Debug)]
pub struct TickTimer {
    pub tick: u32,
}

impl TickTimer {
    /// The tick that the next call of `next` hands out, if any.
    pub open spec fn position(&self) -> int {
        self.tick as int
    }

    /// The ticks that are still to come, in order.
    pub open spec fn remaining(&self) -> Seq<int> {
        let start = self.tick as int;
        if start > TICKS_PER_UNIT as int {
            Seq::empty()
        } else {
            Seq::new((TICKS_PER_UNIT as int - start + 1) as nat, |i: int| start + i)
        }
    }

    /// A timer at the first tick, time 0.
    pub fn new() -> (r: TickTimer)
        ensures
            r.position() == 0,
            r.remaining() == Seq::new((TICKS_PER_UNIT as int + 1) as nat, |i: int| i),
    {
        let r = TickTimer { tick: 0 };
        assert(r.remaining() =~= Seq::new((TICKS_PER_UNIT as int + 1) as nat, |i: int| i));
        r
    }

    /// Hands out the next tick, or `None` once the ticks are exhausted.
    pub fn next(&mut self) -> (r: Option<u32>)
        ensures
            old(self).remaining().len() == 0 ==> r is None && *final(self) == *old(self),
            old(self).remaining().len() > 0 ==> r == Some(old(self).remaining()[0] as u32)
                && final(self).position() == old(self).position() + 1,
            final(self).remaining() == if old(self).remaining().len() == 0 {
                old(self).remaining()
            } else {
                old(self).remaining().drop_first()
            },
    {
        if self.tick > TICKS_PER_UNIT {
            None
        } else {
            let current = self.tick;
            self.tick = current + 1;
            assert(self.remaining() =~= old(self).remaining().drop_first());
            Some(current)
        }
    }
}

impl Default for TickTimer {
    fn default() -> (r: TickTimer)
        ensures
            r.position() == 0,
    {
        TickTimer::new()
    }
}

/// A fresh timer yields `TICKS_PER_UNIT + 1` ticks whatever it samples: it
/// starts at time 0, each tick is exactly one step above the one before, none
/// stands for a time above 1, and the tick after the last would.
pub proof fn lemma_fresh_timer_ticks(t: TickTimer)
    requires
        t.position() == 0,
    ensures
        t.remaining().len() == TICKS_PER_UNIT as int + 1,
        t.remaining()[0] == 0,
        forall|i: int| 0 < i < t.remaining().len() ==> #[trigger] t.remaining()[i] == t.remaining()[i - 1] + 1,
        forall|i: int| 0 <= i < t.remaining().len() ==> t.remaining()[i] <= TICKS_PER_UNIT,
        t.remaining().last() + 1 > TICKS_PER_UNIT,
{
}

} // verus!
