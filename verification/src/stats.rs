//! The statistics store: the shared counters object of the engine.
//!
//! Two instances exist during a run: a live one, written by every worker,
//! and a published one, overwritten once per cycle by the aggregator and
//! read by the presenter. Both start empty.

use vstd::prelude::*;
use std::collections::HashMap;
use circular_buffer::CircularBuffer;
use crate::ring::{ring_contents, ring_new, ring_push, fifo_push};

verus! {

broadcast use vstd::std_specs::hash::group_hash_axioms;

/// The mathematical model of a statistics instance.
pub ghost struct StatModel {
    /// Count of completed requests per HTTP status code.
    pub codes: Map<u16, usize>,
    /// Count of requests that failed before any HTTP status was received.
    pub other_err: usize,
    /// Completed requests (success or failure) in the current one-second window.
    pub cps: usize,
    /// The recent-error records, oldest first.
    pub log: Seq<Seq<char>>,
}

/// How often `code` has been counted: zero until its first response arrives.
pub open spec fn count_of(codes: Map<u16, usize>, code: u16) -> nat {
    if codes.contains_key(code) {
        codes[code] as nat
    } else {
        0
    }
}

/// The cumulative counters of `a` are nowhere above those of `b`.
pub open spec fn counters_le(a: StatModel, b: StatModel) -> bool {
    &&& a.other_err <= b.other_err
    &&& forall|c: u16| #[trigger] count_of(a.codes, c) <= count_of(b.codes, c)
}

/// The shared counters object.
pub struct Statistic {
    /// Completed requests keyed by HTTP status code.
    pub resp_code: HashMap<u16, usize>,
    /// Requests that failed before an HTTP status was received.
    pub other_err: usize,
    /// Completed requests in the current one-second window.
    pub cps: usize,
    /// Fixed-capacity FIFO ring of recent error records.
    pub error_log: CircularBuffer<256, String>,
}

impl View for Statistic {
    type V = StatModel;

    open spec fn view(&self) -> StatModel {
        StatModel {
            codes: self.resp_code@,
            other_err: self.other_err,
            cps: self.cps,
            log: ring_contents(self.error_log),
        }
    }
}

impl Statistic {
    /// The error log never outgrows its 256 slots.
    pub open spec fn wf(&self) -> bool {
        self@.log.len() <= 256
    }

    /// A fresh instance: every counter zero, no error recorded.
    pub fn new() -> (r: Statistic)
        ensures
            r@.codes == Map::<u16, usize>::empty(),
            r@.other_err == 0,
            r@.cps == 0,
            r@.log == Seq::<Seq<char>>::empty(),
            r.wf(),
    {
        Statistic {
            resp_code: HashMap::new(),
            other_err: 0,
            cps: 0,
            error_log: ring_new(),
        }
    }

    /// Whether one more response with this status code can be counted
    /// without overrunning a machine-width counter.
    pub fn can_count_response(&self, code: u16) -> (r: bool)
        ensures
            r == (count_of(self@.codes, code) < usize::MAX && self@.cps < usize::MAX),
    {
        let cur: usize = match self.resp_code.get(&code) {
            Some(v) => *v,
            None => 0,
        };
        cur < usize::MAX && self.cps < usize::MAX
    }

    /// Whether one more failure can be counted without overrunning a
    /// machine-width counter.
    pub fn can_count_failure(&self) -> (r: bool)
        ensures
            r == (self@.other_err < usize::MAX && self@.cps < usize::MAX),
    {
        self.other_err < usize::MAX && self.cps < usize::MAX
    }

    /// A completed request produced an HTTP status (any status, error codes
    /// included): its code's counter and the window counter each grow by one.
    pub fn record_response(&mut self, code: u16)
        requires
            count_of(old(self)@.codes, code) < usize::MAX,
            old(self)@.cps < usize::MAX,
        ensures
            final(self)@.codes == old(self)@.codes.insert(
                code,
                (count_of(old(self)@.codes, code) + 1) as usize,
            ),
            final(self)@.cps == old(self)@.cps + 1,
            final(self)@.other_err == old(self)@.other_err,
            final(self)@.log == old(self)@.log,
            counters_le(old(self)@, final(self)@),
            old(self).wf() ==> final(self).wf(),
    {
        let cur: usize = match self.resp_code.get(&code) {
            Some(v) => *v,
            None => 0,
        };
        self.resp_code.insert(code, cur + 1);
        self.cps = self.cps + 1;
        proof {
            assert forall|c: u16| #[trigger] count_of(old(self)@.codes, c)
                <= count_of(self@.codes, c) by {
                if c != code {
                    assert(count_of(self@.codes, c) == count_of(old(self)@.codes, c));
                }
            }
        }
    }

    /// A request failed before any HTTP status was received: the failure
    /// counter and the window counter each grow by one, and the record joins
    /// the recent-error log, evicting the oldest record once the log is full.
    pub fn record_failure(&mut self, record: String)
        requires
            old(self)@.other_err < usize::MAX,
            old(self)@.cps < usize::MAX,
        ensures
            final(self)@.codes == old(self)@.codes,
            final(self)@.other_err == old(self)@.other_err + 1,
            final(self)@.cps == old(self)@.cps + 1,
            final(self)@.log == fifo_push(old(self)@.log, record@),
            counters_le(old(self)@, final(self)@),
            old(self).wf() ==> final(self).wf(),
    {
        let _evicted = ring_push(&mut self.error_log, record);
        self.other_err = self.other_err + 1;
        self.cps = self.cps + 1;
    }

    /// The recent-error records, oldest first.
    pub fn recent_errors(&self) -> (r: Vec<String>)
        ensures
            r@.map_values(|s: String| s@) == self@.log,
    {
        crate::ring::ring_to_vec(&self.error_log)
    }
}

/// The status-code counters after a run of completions, each counted in
/// arrival order: every entry takes the exact step that `record_response`
/// (and `record_outcome` on a response) ensures.
pub open spec fn codes_after(codes: Map<u16, usize>, completions: Seq<u16>) -> Map<u16, usize>
    decreases completions.len(),
{
    if completions.len() == 0 {
        codes
    } else {
        codes_after(
            codes.insert(completions[0], (count_of(codes, completions[0]) + 1) as usize),
            completions.drop_first(),
        )
    }
}

/// How many entries of `completions` carry this status code.
pub open spec fn occurrences(completions: Seq<u16>, code: u16) -> nat
    decreases completions.len(),
{
    if completions.len() == 0 {
        0
    } else {
        (if completions[0] == code {
            1nat
        } else {
            0nat
        }) + occurrences(completions.drop_first(), code)
    }
}

/// Law: a run of completions grows each status counter by exactly the
/// number of completions carrying that code — so a run whose completions
/// all answer one code ends with that code's counter at the run's length,
/// and a run with a mix of codes ends with every code of the mix counted,
/// as long as the counter stays within the machine width.
pub proof fn lemma_counters_reflect_completions(
    codes: Map<u16, usize>,
    completions: Seq<u16>,
    code: u16,
)
    requires
        count_of(codes, code) + occurrences(completions, code) <= usize::MAX,
    ensures
        count_of(codes_after(codes, completions), code) == count_of(codes, code) + occurrences(
            completions,
            code,
        ),
    decreases completions.len(),
{
    if completions.len() > 0 {
        let next = codes.insert(
            completions[0],
            (count_of(codes, completions[0]) + 1) as usize,
        );
        lemma_counters_reflect_completions(next, completions.drop_first(), code);
    }
}

/// Law: `counters_le` is a partial order on the cumulative counters, so a
/// run of record operations can only grow them.
pub proof fn lemma_counters_le_trans(a: StatModel, b: StatModel, c: StatModel)
    requires
        counters_le(a, b),
        counters_le(b, c),
    ensures
        counters_le(a, c),
{
    assert forall|k: u16| #[trigger] count_of(a.codes, k) <= count_of(c.codes, k) by {
        assert(count_of(a.codes, k) <= count_of(b.codes, k));
        assert(count_of(b.codes, k) <= count_of(c.codes, k));
    }
}

} // verus!
