//! Retry policy: attempt ceiling, exponential backoff with a cap, jitter
//! within a quarter of the capped delay, and the transient-error test.

use vstd::prelude::*;
use vstd::string::*;
use vstd::arithmetic::power::pow;
use crate::text::{contains_sub, spec_contains_seq};
use rand::Rng;

verus! {

/// The smallest delay ever slept between attempts, in milliseconds.
pub const MIN_DELAY_FLOOR_MS: u64 = 100;

/// Retry configuration shared read-only by all client operations.
#[derive(Debug, Clone, PartialEq)]
pub struct RetryConfig {
    /// Maximum number of attempts for one request.
    pub max_attempts: u32,
    /// Base delay between retries in milliseconds.
    pub base_delay_ms: u64,
    /// Maximum delay between retries in milliseconds.
    pub max_delay_ms: u64,
    /// Factor the delay grows by per attempt.
    pub backoff_multiplier: u64,
}

/// The uncapped backoff for a 1-indexed attempt: `base * multiplier^(n-1)`.
pub open spec fn spec_raw_backoff(base: u64, mult: u64, attempt: int) -> int {
    base as int * pow(mult as int, (attempt - 1) as nat)
}

/// The capped backoff: the raw delay, cut off at the maximum delay.
pub open spec fn spec_capped_delay(c: RetryConfig, attempt: int) -> int {
    if spec_raw_backoff(c.base_delay_ms, c.backoff_multiplier, attempt) >= c.max_delay_ms as int {
        c.max_delay_ms as int
    } else {
        spec_raw_backoff(c.base_delay_ms, c.backoff_multiplier, attempt)
    }
}

/// Relies on rand's thread-local generator: `gen_range(0..=bound)` draws a
/// value no larger than the bound.
#[verifier::external_body]
fn random_up_to(bound: u64) -> (r: u64)
    ensures
        r <= bound,
{
    rand::thread_rng().gen_range(0..=bound)
}

impl RetryConfig {
    /// The default policy: three attempts, one second base delay, thirty
    /// seconds cap, doubling backoff.
    pub fn new() -> (c: RetryConfig)
        ensures
            c.max_attempts == 3,
            c.base_delay_ms == 1000,
            c.max_delay_ms == 30000,
            c.backoff_multiplier == 2,
    {
        RetryConfig { max_attempts: 3, base_delay_ms: 1000, max_delay_ms: 30000, backoff_multiplier: 2 }
    }

    /// A policy from the service configuration, with doubling backoff.
    pub fn from_bot_config(max_attempts: u32, base_delay_ms: u64, max_delay_ms: u64) -> (c: RetryConfig)
        ensures
            c.max_attempts == max_attempts,
            c.base_delay_ms == base_delay_ms,
            c.max_delay_ms == max_delay_ms,
            c.backoff_multiplier == 2,
    {
        RetryConfig { max_attempts, base_delay_ms, max_delay_ms, backoff_multiplier: 2 }
    }

    /// The capped exponential delay for a 1-indexed attempt, before jitter.
    pub fn capped_delay(&self, attempt: u32) -> (r: u64)
        requires
            attempt >= 1,
            self.backoff_multiplier >= 1,
        ensures
            r as int == spec_capped_delay(*self, attempt as int),
    {
        let base = self.base_delay_ms;
        let max_delay = self.max_delay_ms;
        let m = self.backoff_multiplier;
        let mut d: u64 = if base >= max_delay { max_delay } else { base };
        assert(d as int == spec_capped_delay(*self, 1)) by {
            vstd::arithmetic::power::lemma_pow0(m as int);
        }
        let mut k: u32 = 1;
        while k < attempt
            invariant
                1 <= k <= attempt,
                m >= 1,
                base == self.base_delay_ms,
                max_delay == self.max_delay_ms,
                m == self.backoff_multiplier,
                d <= max_delay,
                d as int == spec_capped_delay(*self, k as int),
            decreases attempt - k,
        {
            let ghost raw_k = spec_raw_backoff(base, m, k as int);
            if d >= max_delay {
                proof {
                    lemma_capped_stays_at_max(*self, k as int, attempt as int);
                }
                return max_delay;
            }
            assert(raw_k == d);
            proof {
                assert(pow(m as int, ((k + 1) - 1) as nat) == pow(m as int, (k - 1) as nat) * m) by {
                    vstd::arithmetic::power::lemma_pow_adds(m as int, (k - 1) as nat, 1);
                    vstd::arithmetic::power::lemma_pow1(m as int);
                }
                assert(spec_raw_backoff(base, m, k as int + 1) == d as int * m as int) by {
                    vstd::arithmetic::mul::lemma_mul_is_associative(
                        base as int,
                        pow(m as int, (k - 1) as nat),
                        m as int,
                    );
                }
            }
            let nd: u64 = if d > max_delay / m {
                proof {
                    let q = (max_delay / m) as int;
                    vstd::arithmetic::div_mod::lemma_fundamental_div_mod(max_delay as int, m as int);
                    vstd::arithmetic::mul::lemma_mul_inequality(q + 1, d as int, m as int);
                    assert((q + 1) * m == q * m + m) by (nonlinear_arith);
                    assert(q * m == m * q) by (nonlinear_arith);
                    assert(d as int * m as int > max_delay as int);
                }
                max_delay
            } else {
                proof {
                    let q = (max_delay / m) as int;
                    vstd::arithmetic::div_mod::lemma_fundamental_div_mod(max_delay as int, m as int);
                    vstd::arithmetic::mul::lemma_mul_inequality(d as int, q, m as int);
                    assert(q * m == m * q) by (nonlinear_arith);
                    assert(d as int * m as int <= max_delay as int);
                }
                d * m
            };
            assert(nd as int == spec_capped_delay(*self, k as int + 1));
            d = nd;
            k = k + 1;
        }
        d
    }

    /// The jittered delay for a 1-indexed attempt: the capped exponential
    /// delay shifted by a random offset within a quarter of it either way,
    /// never below the minimum floor. The bounds state the whole behaviour;
    /// the exact value depends on the random draw.
    pub fn calculate_delay(&self, attempt: u32) -> (r: u64)
        requires
            attempt >= 1,
            self.backoff_multiplier >= 1,
        ensures
            r >= MIN_DELAY_FLOOR_MS,
            r as int >= spec_capped_delay(*self, attempt as int) - spec_capped_delay(
                *self,
                attempt as int,
            ) / 4,
            r as int <= spec_capped_delay(*self, attempt as int) + spec_capped_delay(
                *self,
                attempt as int,
            ) / 4 || r == MIN_DELAY_FLOOR_MS,
    {
        let capped = self.capped_delay(attempt);
        let jitter_range = capped / 4;
        let offset = random_up_to(2 * jitter_range);
        let low = capped - jitter_range;
        let jittered: u64 = if low > u64::MAX - offset {
            u64::MAX
        } else {
            low + offset
        };
        if jittered < MIN_DELAY_FLOOR_MS {
            MIN_DELAY_FLOOR_MS
        } else {
            jittered
        }
    }
}

/// Once the capped delay reaches the maximum at some attempt, it stays
/// there for every later attempt.
proof fn lemma_capped_stays_at_max(c: RetryConfig, k: int, n: int)
    requires
        1 <= k <= n,
        c.backoff_multiplier >= 1,
        spec_capped_delay(c, k) == c.max_delay_ms as int,
    ensures
        spec_capped_delay(c, n) == c.max_delay_ms as int,
{
    if spec_raw_backoff(c.base_delay_ms, c.backoff_multiplier, k) >= c.max_delay_ms as int {
        vstd::arithmetic::power::lemma_pow_increases(
            c.backoff_multiplier as nat,
            (k - 1) as nat,
            (n - 1) as nat,
        );
        if c.base_delay_ms > 0 {
            vstd::arithmetic::mul::lemma_mul_left_inequality(
                c.base_delay_ms as int,
                pow(c.backoff_multiplier as int, (k - 1) as nat),
                pow(c.backoff_multiplier as int, (n - 1) as nat),
            );
        } else {
            vstd::arithmetic::mul::lemma_mul_basics(
                pow(c.backoff_multiplier as int, (k - 1) as nat),
            );
            vstd::arithmetic::mul::lemma_mul_basics(
                pow(c.backoff_multiplier as int, (n - 1) as nat),
            );
        }
    }
}

/// What `str::to_lowercase` returns; the result is a function of the
/// characters alone.
pub uninterp spec fn lower_of(s: Seq<char>) -> Seq<char>;

/// Relies on str::to_lowercase: lowercases every character of the text,
/// depending on the text alone.
#[verifier::external_body]
pub fn lowercase(s: &str) -> (r: String)
    ensures
        r@ == lower_of(s@),
{
    s.to_lowercase()
}

/// The text names a transient condition: a timeout, a connection or network
/// fault, a rate limit, or a gateway status code.
pub open spec fn spec_transient_text(t: Seq<char>) -> bool {
    ||| spec_contains_seq(t, "timeout"@)
    ||| spec_contains_seq(t, "connection"@)
    ||| spec_contains_seq(t, "network"@)
    ||| spec_contains_seq(t, "rate limit"@)
    ||| spec_contains_seq(t, "429"@)
    ||| spec_contains_seq(t, "502"@)
    ||| spec_contains_seq(t, "503"@)
    ||| spec_contains_seq(t, "504"@)
}

/// Decide whether already-lowercased error text names a transient condition.
pub fn text_mentions_transient(t: &str) -> (r: bool)
    ensures
        r == spec_transient_text(t@),
{
    ||| contains_sub(t, "timeout")
    ||| contains_sub(t, "connection")
    ||| contains_sub(t, "network")
    ||| contains_sub(t, "rate limit")
    ||| contains_sub(t, "429")
    ||| contains_sub(t, "502")
    ||| contains_sub(t, "503")
    ||| contains_sub(t, "504")
}

/// Decide whether rendered error text describes a retryable condition:
/// the lowercased text names a transient fault.
pub fn is_retryable_error(error: &str) -> (r: bool)
    ensures
        r == spec_transient_text(lower_of(error@)),
{
    let low = lowercase(error);
    text_mentions_transient(low.as_str())
}

} // verus!
