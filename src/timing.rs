use vstd::arithmetic::power2::{lemma2_to64, lemma_pow2_pos, lemma_pow2_unfold, pow2};
use vstd::prelude::*;

verus! {

/// Nanoseconds in one second.
pub const NANOS_PER_SEC: u64 = 1_000_000_000;

/// Shortest wait after an error, in nanoseconds.
pub const MIN_RETRY_DELAY: u64 = 1_000_000_000;

/// Longest wait after an error, in nanoseconds.
pub const MAX_RETRY_DELAY: u64 = 300_000_000_000;

/// How long the service's config file must have stood unchanged before its
/// address is trusted, in nanoseconds.
pub const MIN_ADDRESS_AGE: u64 = 3_000_000_000;

/// `x` clamped into `[lo, hi]`.
pub open spec fn clamp(x: int, lo: int, hi: int) -> int {
    if x < lo {
        lo
    } else if x > hi {
        hi
    } else {
        x
    }
}

/// The wait after an error that follows a previous wait of `previous`.
pub open spec fn next_delay_spec(previous: int) -> int {
    clamp(2 * previous, MIN_RETRY_DELAY as int, MAX_RETRY_DELAY as int)
}

/// The error backoff: twice the previous delay, kept within
/// `[MIN_RETRY_DELAY, MAX_RETRY_DELAY]`.
pub fn next_error_delay(previous: u64) -> (r: u64)
    ensures
        r == next_delay_spec(previous as int),
        MIN_RETRY_DELAY <= r <= MAX_RETRY_DELAY,
{
    if previous > MAX_RETRY_DELAY / 2 {
        MAX_RETRY_DELAY
    } else {
        let doubled: u64 = previous * 2;
        if doubled < MIN_RETRY_DELAY {
            MIN_RETRY_DELAY
        } else {
            doubled
        }
    }
}

/// How long the config file still has to stand before it may be trusted, when
/// it was last modified at `modified` and the clock reads `now`. A modification
/// time later than `now` counts as an age of zero.
pub open spec fn freshness_wait_spec(modified: int, now: int) -> int {
    let age = if modified > now { 0 } else { now - modified };
    if age < MIN_ADDRESS_AGE { MIN_ADDRESS_AGE - age } else { 0 }
}

/// Nanoseconds still to wait before the config file modified at `modified`
/// (nanoseconds since the epoch) is old enough at `now`; zero once it is.
pub fn freshness_wait(modified: u64, now: u64) -> (r: u64)
    ensures
        r == freshness_wait_spec(modified as int, now as int),
        r <= MIN_ADDRESS_AGE,
{
    let age: u64 = if modified > now { 0 } else { now - modified };
    if age < MIN_ADDRESS_AGE {
        MIN_ADDRESS_AGE - age
    } else {
        0
    }
}

/// Nanoseconds from a moment whose sub-second part is `subsec_nanos` to the
/// next whole second.
pub fn until_next_second(subsec_nanos: u32) -> (r: u64)
    requires
        subsec_nanos < NANOS_PER_SEC,
    ensures
        r == NANOS_PER_SEC - subsec_nanos,
        0 < r <= NANOS_PER_SEC,
{
    NANOS_PER_SEC - subsec_nanos as u64
}

/// The error delay after `n` errors in a row, counted from a delay of zero.
pub open spec fn delay_after(n: nat) -> int
    decreases n,
{
    if n == 0 {
        0
    } else {
        next_delay_spec(delay_after((n - 1) as nat))
    }
}

/// After `n >= 1` errors in a row the delay is the shortest one doubled
/// `n - 1` times, but never more than the longest.
pub proof fn lemma_backoff_sequence(n: nat)
    requires
        n >= 1,
    ensures
        delay_after(n) == if MIN_RETRY_DELAY * pow2((n - 1) as nat) < MAX_RETRY_DELAY {
            MIN_RETRY_DELAY * pow2((n - 1) as nat)
        } else {
            MAX_RETRY_DELAY as int
        },
    decreases n,
{
    reveal_with_fuel(delay_after, 2);
    if n == 1 {
        lemma2_to64();
    } else {
        let k = (n - 2) as nat;
        lemma_backoff_sequence((n - 1) as nat);
        lemma_pow2_unfold((n - 1) as nat);
        lemma_pow2_pos(k);
        let p = pow2(k);
        assert(pow2((n - 1) as nat) == 2 * p);
        assert(MIN_RETRY_DELAY * (2 * p) == 2 * (MIN_RETRY_DELAY * p));
        assert(delay_after(n) == next_delay_spec(delay_after((n - 1) as nat)));
    }
}

/// Every error delay lies within `[MIN_RETRY_DELAY, MAX_RETRY_DELAY]`, and
/// never shrinks from one error to the next once it is within those bounds.
pub proof fn lemma_backoff_bounds(previous: int)
    requires
        0 <= previous,
    ensures
        MIN_RETRY_DELAY <= next_delay_spec(previous) <= MAX_RETRY_DELAY,
        previous <= MAX_RETRY_DELAY ==> previous <= next_delay_spec(previous),
{
}

/// A file modified later than now counts as modified now: the wait is the
/// whole minimum age, neither negative nor longer.
pub proof fn lemma_future_modification(modified: int, now: int)
    requires
        modified > now,
    ensures
        freshness_wait_spec(modified, now) == MIN_ADDRESS_AGE,
{
}

/// The loop goes on exactly when the file has stood for the minimum age, and
/// otherwise waits for just what is left of it, never more than that age.
pub proof fn lemma_freshness(modified: int, now: int)
    requires
        modified <= now,
    ensures
        (freshness_wait_spec(modified, now) == 0) <==> now - modified >= MIN_ADDRESS_AGE,
        now - modified < MIN_ADDRESS_AGE ==> now + freshness_wait_spec(modified, now) == modified
            + MIN_ADDRESS_AGE,
        0 <= freshness_wait_spec(modified, now) <= MIN_ADDRESS_AGE,
{
}

} // verus!
