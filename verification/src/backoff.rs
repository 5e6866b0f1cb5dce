//! Backoff policy: the delay inserted between consecutive failed
//! connection attempts against one target.
//!
//! The delay grows by `step_increment` every time the failure count
//! crosses a multiple of `step_count`, and is clamped to `max_delay`:
//! the delay after `attempt` total failures is
//! `(attempt / step_count) * step_increment`, at most `max_delay`.
//! The first `step_count - 1` failures therefore retry with no delay.

use vstd::prelude::*;
use vstd::arithmetic::div_mod::{
    lemma_basic_div, lemma_div_is_ordered, lemma_fundamental_div_mod, lemma_mod_bound,
};
use vstd::arithmetic::mul::lemma_mul_inequality;

verus! {

/// Delay before the retry that follows failure number `attempt`
/// (`attempt >= 1` counts consecutive failures, including the one just
/// observed): `(attempt / step_count) * step_increment`, clamped to
/// `max_delay`.
pub open spec fn spec_next_delay(
    attempt: nat,
    step_count: nat,
    step_increment: nat,
    max_delay: nat,
) -> nat
    recommends
        step_count >= 1,
{
    let raw = (attempt / step_count) * step_increment;
    if raw > max_delay {
        max_delay
    } else {
        raw
    }
}

/// Computes the backoff delay for a given failure count. Pure and
/// deterministic; never overflows because the result is clamped.
pub fn next_delay(attempt: u64, step_count: u64, step_increment: u64, max_delay: u64) -> (delay:
    u64)
    requires
        step_count >= 1,
    ensures
        delay == spec_next_delay(
            attempt as nat,
            step_count as nat,
            step_increment as nat,
            max_delay as nat,
        ),
{
    if step_increment == 0 {
        return 0;
    }
    let quotient = attempt / step_count;
    if quotient > max_delay / step_increment {
        proof {
            let q = quotient as int;
            let si = step_increment as int;
            let md = max_delay as int;
            lemma_fundamental_div_mod(md, si);
            lemma_mod_bound(md, si);
            let d = md / si;
            assert(q * si > md) by (nonlinear_arith)
                requires
                    q >= d + 1,
                    si >= 1,
                    md == si * d + md % si,
                    md % si < si,
            ;
        }
        max_delay
    } else {
        proof {
            let q = quotient as int;
            let si = step_increment as int;
            let md = max_delay as int;
            lemma_fundamental_div_mod(md, si);
            lemma_mod_bound(md, si);
            lemma_mul_inequality(q, md / si, si);
            let d = md / si;
            assert(d * si <= md) by (nonlinear_arith)
                requires
                    si >= 1,
                    md == si * d + md % si,
                    md % si >= 0,
            ;
        }
        quotient * step_increment
    }
}

/// The backoff delay never exceeds `max_delay`.
pub proof fn lemma_next_delay_bounded(
    attempt: nat,
    step_count: nat,
    step_increment: nat,
    max_delay: nat,
)
    requires
        step_count >= 1,
    ensures
        spec_next_delay(attempt, step_count, step_increment, max_delay) <= max_delay,
{
}

/// The backoff delay is non-decreasing in the failure count: a longer
/// failure streak never shortens the wait.
pub proof fn lemma_next_delay_monotonic(
    attempt1: nat,
    attempt2: nat,
    step_count: nat,
    step_increment: nat,
    max_delay: nat,
)
    requires
        step_count >= 1,
        attempt1 <= attempt2,
    ensures
        spec_next_delay(attempt1, step_count, step_increment, max_delay) <= spec_next_delay(
            attempt2,
            step_count,
            step_increment,
            max_delay,
        ),
{
    lemma_div_is_ordered(attempt1 as int, attempt2 as int, step_count as int);
    lemma_mul_inequality(
        attempt1 as int / step_count as int,
        attempt2 as int / step_count as int,
        step_increment as int,
    );
}

/// Failure counts below `step_count` retry with no delay: the policy
/// fails fast on the first few attempts.
pub proof fn lemma_next_delay_zero_below_step(
    attempt: nat,
    step_count: nat,
    step_increment: nat,
    max_delay: nat,
)
    requires
        step_count >= 1,
        attempt < step_count,
    ensures
        spec_next_delay(attempt, step_count, step_increment, max_delay) == 0,
{
    lemma_basic_div(attempt as int, step_count as int);
}

/// Per-worker retry bookkeeping: how many consecutive failures the
/// current streak has seen, and the delay chosen after the most recent
/// one. Created with the worker, reset on every successful connect.
#[derive(Clone, Copy, Debug, PartialEq, Eq, Structural)]
pub struct RetryState {
    /// Number of the next failure to be observed in the current streak;
    /// starts at 1 and increases by one per recorded failure.
    pub attempt: u64,
    /// Delay chosen after the most recently recorded failure; 0 at rest.
    pub delay: u64,
}

impl RetryState {
    /// A fresh streak: no failures observed, no delay.
    pub fn new() -> (r: RetryState)
        ensures
            r.attempt == 1,
            r.delay == 0,
    {
        RetryState { attempt: 1, delay: 0 }
    }

    /// Clean slate after a successful (re)connect, regardless of how
    /// long the prior failure streak was.
    pub fn reset(&mut self)
        ensures
            final(self).attempt == 1,
            final(self).delay == 0,
    {
        self.attempt = 1;
        self.delay = 0;
    }

    /// Records one more failed attempt: the delay becomes the policy
    /// value for the failure just observed, and the counter moves to
    /// the next attempt.
    pub fn record_failure(&mut self, step_count: u64, step_increment: u64, max_delay: u64)
        requires
            old(self).attempt < u64::MAX,
            step_count >= 1,
        ensures
            final(self).attempt == old(self).attempt + 1,
            final(self).delay == spec_next_delay(
                old(self).attempt as nat,
                step_count as nat,
                step_increment as nat,
                max_delay as nat,
            ),
            final(self).delay <= max_delay,
    {
        proof {
            lemma_next_delay_bounded(
                self.attempt as nat,
                step_count as nat,
                step_increment as nat,
                max_delay as nat,
            );
        }
        self.delay = next_delay(self.attempt, step_count, step_increment, max_delay);
        self.attempt = self.attempt + 1;
    }
}

} // verus!
