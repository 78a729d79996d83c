//! The rate limiter: issues a bounded number of admission tokens per
//! one-second window.
//!
//! The limiter follows a discard-then-grant policy: at the start of each
//! window every unclaimed token is dropped and exactly `rate` fresh tokens
//! are granted, so unused capacity never rolls over into the next window.
//! When no rate is configured, and likewise when the configured rate is
//! zero, admission is unlimited and the limiter never blocks a worker —
//! "rate = 0 forever blocks" is explicitly not what a zero rate means.

use vstd::prelude::*;

verus! {

/// Whether this rate setting means unlimited admission: no rate at all, or
/// an explicit rate of zero. Either way no worker ever waits.
pub open spec fn is_unlimited(rate: Option<usize>) -> bool {
    rate is None || rate == Some(0usize)
}

/// Currently grantable admission capacity: a count, not a queue of objects.
pub struct RateLimiter {
    /// The configured rate, in requests per second; `None` and `Some(0)`
    /// both mean unlimited.
    pub rate: Option<usize>,
    /// Tokens still grantable in the current window. Consulted only while
    /// a positive rate is configured.
    pub tokens: usize,
}

impl RateLimiter {
    /// A fresh limiter holds no token: under a positive rate, nothing is
    /// admitted before the first window opens.
    pub fn new(rate: Option<usize>) -> (r: RateLimiter)
        ensures
            r.rate == rate,
            r.tokens == 0,
    {
        RateLimiter { rate, tokens: 0 }
    }

    /// Opens a new one-second window: discards every unclaimed token and
    /// grants exactly the configured rate afresh. Inert when no rate is
    /// configured.
    pub fn refill(&mut self)
        ensures
            final(self).rate == old(self).rate,
            old(self).rate matches Some(r) ==> final(self).tokens == r,
            old(self).rate is None ==> final(self).tokens == old(self).tokens,
    {
        match self.rate {
            Some(r) => {
                self.tokens = r;
            }
            None => {}
        }
    }

    /// Shutdown flood: grants effectively unlimited tokens so that no
    /// worker stays parked waiting for admission.
    pub fn release_all(&mut self)
        ensures
            final(self).rate == old(self).rate,
            final(self).tokens == usize::MAX,
    {
        self.tokens = usize::MAX;
    }

    /// One admission attempt. In unlimited mode — no rate, or a rate of
    /// zero — it always grants and changes nothing: the limiter adds no
    /// latency. Under a positive rate it grants exactly when a token is
    /// left, consuming one.
    pub fn try_acquire(&mut self) -> (granted: bool)
        ensures
            final(self).rate == old(self).rate,
            is_unlimited(old(self).rate) ==> granted && final(self).tokens == old(self).tokens,
            !is_unlimited(old(self).rate) ==> granted == (old(self).tokens > 0),
            !is_unlimited(old(self).rate) && granted ==> final(self).tokens == old(
                self,
            ).tokens - 1,
            !is_unlimited(old(self).rate) && !granted ==> final(self).tokens == old(self).tokens,
    {
        match self.rate {
            None => true,
            Some(r) => {
                if r == 0 {
                    true
                } else if self.tokens > 0 {
                    self.tokens = self.tokens - 1;
                    true
                } else {
                    false
                }
            }
        }
    }
}

/// What the once-per-second limiter tick does to the shared admission
/// source.
pub enum TickAction {
    /// Shutdown was requested: flood effectively unlimited tokens, so that
    /// no worker stays parked in acquire, and halt the tick loop.
    FloodAndHalt,
    /// A positive rate is configured: discard every unclaimed token and
    /// grant this many afresh.
    Grant(usize),
    /// Admission is unlimited: leave the token source alone.
    Rest,
}

/// The limiter tick's decision, once per second: shutdown floods and
/// halts; a positive rate is re-granted in full; unlimited mode touches
/// nothing.
pub fn limiter_tick_decide(stop: bool, rate: Option<usize>) -> (a: TickAction)
    ensures
        stop ==> a == TickAction::FloodAndHalt,
        !stop && is_unlimited(rate) ==> a == TickAction::Rest,
        !stop && !is_unlimited(rate) ==> (rate matches Some(r) && a == TickAction::Grant(r)),
{
    if stop {
        TickAction::FloodAndHalt
    } else {
        match rate {
            Some(r) => {
                if r > 0 {
                    TickAction::Grant(r)
                } else {
                    TickAction::Rest
                }
            }
            None => TickAction::Rest,
        }
    }
}

/// How many admissions a window under a positive rate grants to a run of
/// `attempts` acquisition attempts, having opened with `tokens` tokens:
/// attempts after the tokens run out block until the next window and admit
/// nothing in this one.
pub open spec fn admitted_in_window(tokens: nat, attempts: nat) -> nat
    decreases attempts,
{
    if attempts == 0 {
        0
    } else if tokens > 0 {
        1 + admitted_in_window((tokens - 1) as nat, (attempts - 1) as nat)
    } else {
        0
    }
}

/// Law: a window grants exactly as many admissions as it has tokens or
/// attempts, whichever runs out first.
pub proof fn lemma_admitted_exact(tokens: nat, attempts: nat)
    ensures
        admitted_in_window(tokens, attempts) == if attempts <= tokens {
            attempts
        } else {
            tokens
        },
    decreases attempts,
{
    if attempts > 0 && tokens > 0 {
        lemma_admitted_exact((tokens - 1) as nat, (attempts - 1) as nat);
    }
}

/// Law: for a configured positive rate, the number of requests admitted
/// within any one one-second window never exceeds that rate, however many
/// acquisition attempts the workers make.
pub proof fn lemma_window_admissions_bounded(rate: nat, attempts: nat)
    ensures
        admitted_in_window(rate, attempts) <= rate,
{
    lemma_admitted_exact(rate, attempts);
}

/// The admissions a whole run grants: one refill-to-full window per entry
/// of `attempts`, each entry the number of acquisition attempts made
/// within that window.
pub open spec fn admitted_over_run(rate: nat, attempts: Seq<nat>) -> nat
    decreases attempts.len(),
{
    if attempts.len() == 0 {
        0
    } else {
        admitted_in_window(rate, attempts[0]) + admitted_over_run(rate, attempts.drop_first())
    }
}

/// Law: a run of `n` one-second windows under a positive rate admits at
/// most `n * rate` requests in total, and exactly that many when the
/// workers keep asking until every window runs dry.
pub proof fn lemma_run_admissions(rate: nat, attempts: Seq<nat>)
    ensures
        admitted_over_run(rate, attempts) <= attempts.len() * rate,
        (forall|i: int| 0 <= i < attempts.len() ==> attempts[i] >= rate)
            ==> admitted_over_run(rate, attempts) == attempts.len() * rate,
    decreases attempts.len(),
{
    if attempts.len() == 0 {
    } else {
        lemma_admitted_exact(rate, attempts[0]);
        lemma_run_admissions(rate, attempts.drop_first());
        assert(attempts.len() * rate == (attempts.len() - 1) * rate + rate) by (nonlinear_arith)
            requires attempts.len() >= 1;
        assert(forall|i: int| 0 <= i < attempts.drop_first().len()
            ==> attempts.drop_first()[i] == attempts[i + 1]);
    }
}

} // verus!
