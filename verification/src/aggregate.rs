//! The aggregator: once per second it freezes the live statistics into the
//! published snapshot and resets the live window counter, and after a
//! shutdown request it keeps going for a bounded grace period so that
//! in-flight completions still reach the snapshot.

use vstd::prelude::*;
use crate::stats::{Statistic, StatModel, counters_le};
use crate::ring::ring_clone;

verus! {

/// One aggregation tick: the published instance becomes a deep copy of the
/// live instance, all-or-nothing, and only the live window counter is
/// reset — the cumulative counters and the error log carry forward on the
/// live side. The published window counter therefore holds exactly the
/// completions counted since the previous tick.
pub fn publish(live: &mut Statistic, published: &mut Statistic)
    ensures
        final(published)@.codes == old(live)@.codes,
        final(published)@.other_err == old(live)@.other_err,
        final(published)@.cps == old(live)@.cps,
        final(published)@.log == old(live)@.log,
        final(live)@.codes == old(live)@.codes,
        final(live)@.other_err == old(live)@.other_err,
        final(live)@.log == old(live)@.log,
        final(live)@.cps == 0,
        old(live).wf() ==> final(live).wf() && final(published).wf(),
{
    published.cps = live.cps;
    published.resp_code = live.resp_code.clone();
    published.other_err = live.other_err;
    published.error_log = ring_clone(&live.error_log);
    live.cps = 0;
}

/// Law: cumulative counters never decrease between consecutive published
/// snapshots. If the first snapshot was published from the live instance,
/// the live instance then only grew (every record operation ensures
/// `counters_le`), and the second snapshot was published from the result,
/// the two snapshots are ordered the same way.
pub proof fn lemma_snapshots_monotone(
    snap1: StatModel,
    live1: StatModel,
    live2: StatModel,
    snap2: StatModel,
)
    requires
        snap1.codes == live1.codes,
        snap1.other_err == live1.other_err,
        counters_le(live1, live2),
        snap2.codes == live2.codes,
        snap2.other_err == live2.other_err,
    ensures
        counters_le(snap1, snap2),
{
}

/// The aggregator's shutdown bookkeeping: how many more ticks it runs once
/// the shutdown flag is up.
pub struct Aggregator {
    /// Remaining grace ticks; the aggregator halts when this reaches zero.
    pub grace_remaining: usize,
}

/// One saturating step of the grace countdown.
pub open spec fn dec1(c: nat) -> nat {
    if c == 0 {
        0
    } else {
        (c - 1) as nat
    }
}

/// The grace counter after `ticks` ticks with the shutdown flag set.
pub open spec fn grace_after(start: nat, ticks: nat) -> nat
    decreases ticks,
{
    if ticks == 0 {
        start
    } else {
        dec1(grace_after(start, (ticks - 1) as nat))
    }
}

impl Aggregator {
    /// The grace period: five extra ticks after shutdown is requested.
    pub fn new() -> (r: Aggregator)
        ensures
            r.grace_remaining == 5,
    {
        Aggregator { grace_remaining: 5 }
    }

    /// One tick of the aggregator's control state. While shutdown is not
    /// requested nothing changes and the aggregator goes on. Once it is,
    /// each tick consumes one grace tick, and the aggregator halts — before
    /// publishing — on the tick that exhausts the grace period.
    pub fn observe_tick(&mut self, stop: bool) -> (halt: bool)
        ensures
            !stop ==> final(self).grace_remaining == old(self).grace_remaining && !halt,
            stop ==> final(self).grace_remaining as nat == dec1(
                old(self).grace_remaining as nat,
            ),
            halt == (stop && final(self).grace_remaining == 0),
    {
        if stop {
            if self.grace_remaining > 0 {
                self.grace_remaining = self.grace_remaining - 1;
            }
            self.grace_remaining == 0
        } else {
            false
        }
    }
}

/// Law: the grace countdown from `start` stands at `start - ticks` until it
/// reaches zero and then stays there.
pub proof fn lemma_grace_countdown(start: nat, ticks: nat)
    ensures
        grace_after(start, ticks) == if ticks <= start {
            (start - ticks) as nat
        } else {
            0
        },
    decreases ticks,
{
    if ticks > 0 {
        lemma_grace_countdown(start, (ticks - 1) as nat);
    }
}

/// Law: after shutdown is requested, the aggregator halts within its grace
/// period — after at most `start` further ticks the countdown is exhausted,
/// so no snapshot is published afterwards.
pub proof fn lemma_shutdown_drains(start: nat, ticks: nat)
    requires
        ticks >= start,
    ensures
        grace_after(start, ticks) == 0,
{
    lemma_grace_countdown(start, ticks);
}

} // verus!
