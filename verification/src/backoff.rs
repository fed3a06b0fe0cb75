//! Exponential backoff between SteamVR recovery attempts: the first retry after 5 s, then
//! 10, 20, 40 … seconds, capped at 5 minutes.

use vstd::prelude::*;

verus! {

/// Delay after the first failed recovery, in milliseconds.
pub const BASE_BACKOFF_MS: u64 = 5000;

/// Longest delay between recovery attempts, in milliseconds.
pub const MAX_BACKOFF_MS: u64 = 300000;

/// `2^n`.
pub open spec fn pow2(n: nat) -> nat
    decreases n,
{
    if n == 0 {
        1
    } else {
        2 * pow2((n - 1) as nat)
    }
}

/// `pow2` is positive and grows with its exponent.
pub proof fn lemma_pow2_monotone(a: nat, b: nat)
    requires
        a <= b,
    ensures
        1 <= pow2(a) <= pow2(b),
    decreases b,
{
    if b > a {
        lemma_pow2_monotone(a, (b - 1) as nat);
    } else {
        lemma_pow2_positive(a);
    }
}

/// `pow2` is positive.
pub proof fn lemma_pow2_positive(n: nat)
    ensures
        pow2(n) >= 1,
    decreases n,
{
    if n > 0 {
        lemma_pow2_positive((n - 1) as nat);
    }
}

/// The backoff delay in milliseconds after `failures` consecutive failures: 5 s doubled once
/// per failure after the first, capped at 5 minutes.
pub open spec fn backoff_delay_spec(failures: u32) -> nat {
    let f: nat = if failures == 0 {
        0
    } else {
        (failures - 1) as nat
    };
    if 5000 * pow2(f) <= 300000 {
        5000 * pow2(f)
    } else {
        300000
    }
}

/// The backoff delay in milliseconds after `failures` consecutive failed recoveries.
pub fn backoff_delay(failures: u32) -> (r: u64)
    ensures
        r == backoff_delay_spec(failures),
        BASE_BACKOFF_MS <= r <= MAX_BACKOFF_MS,
{
    let f = failures.saturating_sub(1);
    let mut d: u64 = BASE_BACKOFF_MS;
    let mut i: u32 = 0;
    assert(pow2(0) == 1);
    while i < f && d < MAX_BACKOFF_MS
        invariant
            i <= f,
            d == 5000 * pow2(i as nat),
            BASE_BACKOFF_MS <= d < 2 * MAX_BACKOFF_MS,
        decreases f - i,
    {
        d = d * 2;
        i = i + 1;
    }
    proof {
        if i < f {
            lemma_pow2_monotone(i as nat, f as nat);
        }
    }
    if d > MAX_BACKOFF_MS {
        MAX_BACKOFF_MS
    } else {
        d
    }
}

/// Consecutive recovery failures and the earliest time of the next attempt.
pub struct BackoffState {
    pub consecutive_failures: u32,
    /// Monotonic time in milliseconds before which no new attempt is made.
    pub next_attempt_at_ms: Option<u64>,
}

/// Whether an attempt is allowed at `now_ms`.
pub open spec fn backoff_ready(b: BackoffState, now_ms: u64) -> bool {
    match b.next_attempt_at_ms {
        Some(t) => now_ms >= t,
        None => true,
    }
}

/// The failure count after one more failure (saturating at `u32::MAX`).
pub open spec fn next_failure_count(failures: u32) -> u32 {
    if failures == u32::MAX {
        failures
    } else {
        (failures + 1) as u32
    }
}

impl BackoffState {
    /// No failures, attempts allowed at once.
    pub fn new() -> (r: Self)
        ensures
            r.consecutive_failures == 0,
            r.next_attempt_at_ms is None,
    {
        BackoffState { consecutive_failures: 0, next_attempt_at_ms: None }
    }

    /// Forgets all failures; the next attempt is allowed at once.
    pub fn reset(&mut self)
        ensures
            final(self).consecutive_failures == 0,
            final(self).next_attempt_at_ms is None,
    {
        self.consecutive_failures = 0;
        self.next_attempt_at_ms = None;
    }

    /// Counts a failed recovery at `now_ms` and schedules the next attempt after the
    /// backoff delay for the new failure count.
    pub fn record_failure(&mut self, now_ms: u64)
        requires
            now_ms <= u64::MAX - MAX_BACKOFF_MS,
        ensures
            final(self).consecutive_failures == next_failure_count(old(self).consecutive_failures),
            final(self).next_attempt_at_ms == Some(
                (now_ms + backoff_delay_spec(final(self).consecutive_failures)) as u64,
            ),
    {
        self.consecutive_failures = self.consecutive_failures.saturating_add(1);
        let delay = backoff_delay(self.consecutive_failures);
        self.next_attempt_at_ms = Some(now_ms + delay);
    }

    /// Whether a recovery attempt is allowed at `now_ms`.
    pub fn ready(&self, now_ms: u64) -> (r: bool)
        ensures
            r == backoff_ready(*self, now_ms),
    {
        match self.next_attempt_at_ms {
            Some(t) => now_ms >= t,
            None => true,
        }
    }
}

/// The backoff delay is never below 5 s nor above the 5-minute cap, for any failure count.
pub proof fn lemma_backoff_delay_bounded(f: u32)
    ensures
        BASE_BACKOFF_MS <= backoff_delay_spec(f) <= MAX_BACKOFF_MS,
{
    let e: nat = if f == 0 { 0 } else { (f - 1) as nat };
    lemma_pow2_positive(e);
}

/// Each further failure doubles the delay until it reaches the 5-minute cap, starting from
/// 5 s for the first failure (and for none); the delay always lies between 5 s and 5 minutes.
pub proof fn law_backoff_doubles_until_cap(failures: u32)
    requires
        1 <= failures < u32::MAX,
    ensures
        backoff_delay_spec(0) == BASE_BACKOFF_MS,
        backoff_delay_spec(1) == BASE_BACKOFF_MS,
        BASE_BACKOFF_MS <= backoff_delay_spec(failures) <= MAX_BACKOFF_MS,
        backoff_delay_spec((failures + 1) as u32) == if 2 * backoff_delay_spec(failures)
            <= MAX_BACKOFF_MS {
            2 * backoff_delay_spec(failures)
        } else {
            MAX_BACKOFF_MS as nat
        },
{
    assert(pow2(0) == 1);
    let e = (failures - 1) as nat;
    lemma_pow2_positive(e);
    assert(pow2(e + 1) == 2 * pow2(e));
    let next = (failures + 1) as u32;
    assert(next == failures + 1);
    assert(((next - 1) as nat) == e + 1);
    let x = 5000 * pow2(e);
    assert(5000 * pow2(e + 1) == 2 * x);
    assert(backoff_delay_spec(failures) == if x <= 300000 { x } else { 300000 });
    assert(backoff_delay_spec(next) == if 2 * x <= 300000 { 2 * x } else { 300000 });
}

/// The delay never shrinks as failures accumulate, and stays between 5 s and 5 minutes.
pub proof fn law_backoff_monotone(a: u32, b: u32)
    requires
        a <= b,
    ensures
        backoff_delay_spec(a) <= backoff_delay_spec(b),
        BASE_BACKOFF_MS <= backoff_delay_spec(a) <= MAX_BACKOFF_MS,
        BASE_BACKOFF_MS <= backoff_delay_spec(b) <= MAX_BACKOFF_MS,
{
    let ea: nat = if a == 0 { 0 } else { (a - 1) as nat };
    let eb: nat = if b == 0 { 0 } else { (b - 1) as nat };
    lemma_pow2_monotone(ea, eb);
    lemma_backoff_delay_bounded(a);
    lemma_backoff_delay_bounded(b);
}

} // verus!
