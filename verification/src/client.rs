//! The resilient API client's decision core: classification of one HTTP
//! exchange, the per-attempt retry decision, and a verified model of the
//! whole attempt loop. The surrounding process performs the transport,
//! sleeps and token refreshes that these decisions call for.

use vstd::prelude::*;
use vstd::string::*;
use crate::errors::SpotifyError;
use crate::retry::{RetryConfig, MIN_DELAY_FLOOR_MS, spec_capped_delay};
use crate::text::{contains_sub, parse_u64_dec, spec_all_digits, spec_contains_seq, spec_dec_val};

verus! {

/// What one HTTP exchange produced, as the transport reports it.
#[derive(Debug, Clone, PartialEq)]
pub enum WireOutcome {
    /// A response arrived: its status, its retry-after header if present,
    /// and its body text.
    Reply { status: u16, retry_after: Option<String>, body: String },
    /// The request never completed.
    Transport { message: String },
}

/// A response with one of the two success statuses.
pub open spec fn spec_is_success(o: WireOutcome) -> bool {
    match o {
        WireOutcome::Reply { status, .. } => status == 200 || status == 201,
        WireOutcome::Transport { .. } => false,
    }
}

/// The body of a successful response.
pub open spec fn spec_success_body(o: WireOutcome) -> Seq<char> {
    match o {
        WireOutcome::Reply { body, .. } => body@,
        WireOutcome::Transport { .. } => Seq::empty(),
    }
}

/// An exchange whose classified error is worth another attempt: transport
/// faults, expired tokens, rate limits, server errors and request timeouts.
pub open spec fn spec_outcome_retryable(o: WireOutcome) -> bool {
    match o {
        WireOutcome::Transport { .. } => true,
        WireOutcome::Reply { status, .. } => status == 401 || status == 429 || status >= 500
            || status == 408,
    }
}

/// The retry-after wait in seconds: the header value when it is a decimal
/// number that fits, one second otherwise.
pub open spec fn spec_retry_after_secs(h: Option<String>) -> int {
    if h is Some && h->0@.len() > 0 && spec_all_digits(h->0@) && spec_dec_val(h->0@)
        <= u64::MAX {
        spec_dec_val(h->0@)
    } else {
        1
    }
}

/// The retry-after wait in milliseconds, saturating at the `u64` range.
pub open spec fn spec_retry_after_ms(h: Option<String>) -> int {
    if spec_retry_after_secs(h) * 1000 > u64::MAX {
        u64::MAX as int
    } else {
        spec_retry_after_secs(h) * 1000
    }
}

/// Turn a retry-after header into the wait in milliseconds.
pub fn parse_retry_after(h: &Option<String>) -> (r: u64)
    ensures
        r as int == spec_retry_after_ms(*h),
{
    let secs: u64 = match h {
        Some(text) => {
            match parse_u64_dec(text.as_str()) {
                Some(v) => v,
                None => 1,
            }
        },
        None => 1,
    };
    if secs > u64::MAX / 1000 {
        proof {
            let q = (u64::MAX / 1000) as int;
            vstd::arithmetic::div_mod::lemma_fundamental_div_mod(u64::MAX as int, 1000);
            vstd::arithmetic::mul::lemma_mul_inequality(q + 1, secs as int, 1000);
        }
        u64::MAX
    } else {
        proof {
            let q = (u64::MAX / 1000) as int;
            vstd::arithmetic::div_mod::lemma_fundamental_div_mod(u64::MAX as int, 1000);
            vstd::arithmetic::mul::lemma_mul_inequality(secs as int, q, 1000);
        }
        secs * 1000
    }
}

/// The error an unsuccessful exchange is classified to.
pub open spec fn spec_classified_err(o: WireOutcome, e: SpotifyError) -> bool {
    match o {
        WireOutcome::Transport { message } => e matches SpotifyError::NetworkError(m) && m@
            == message@,
        WireOutcome::Reply { status, retry_after, body } => {
            if status == 401 {
                e is TokenExpired
            } else if status == 429 {
                e matches SpotifyError::RateLimitExceeded { retry_after_ms } && retry_after_ms
                    as int == spec_retry_after_ms(retry_after)
            } else if status == 404 {
                if spec_contains_seq(body@, "track"@) {
                    e matches SpotifyError::TrackNotFound { track_id } && track_id@
                        == "unknown"@
                } else if spec_contains_seq(body@, "playlist"@) {
                    e matches SpotifyError::PlaylistNotFound { playlist_id } && playlist_id@
                        == "unknown"@
                } else if body@.len() == 0 {
                    e matches SpotifyError::ApiRequestFailed { status: s, message } && s == 404
                        && message@
                        == "404 Not Found - endpoint may not exist or resource not found"@
                } else {
                    e matches SpotifyError::ApiRequestFailed { status: s, message } && s == 404
                        && message@ == body@
                }
            } else if status == 403 {
                if spec_contains_seq(body@, "playlist"@) {
                    e matches SpotifyError::PlaylistAccessDenied { playlist_id } && playlist_id@
                        == "unknown"@
                } else {
                    e matches SpotifyError::ApiRequestFailed { status: s, message } && s == 403
                        && message@ == body@
                }
            } else {
                e matches SpotifyError::ApiRequestFailed { status: s, message } && s == status
                    && message@ == body@
            }
        },
    }
}

/// An error worth another attempt: rate limits, transport faults, expired
/// tokens, server errors (5xx), rate-limit and timeout statuses.
pub open spec fn spec_retryable(e: SpotifyError) -> bool {
    match e {
        SpotifyError::RateLimitExceeded { .. } => true,
        SpotifyError::NetworkError(_) => true,
        SpotifyError::TokenExpired => true,
        SpotifyError::ApiRequestFailed { status, .. } => status >= 500 || status == 429
            || status == 408,
        _ => false,
    }
}

/// Decide whether an error is worth another attempt.
pub fn is_retryable(e: &SpotifyError) -> (r: bool)
    ensures
        r == spec_retryable(*e),
{
    match e {
        SpotifyError::RateLimitExceeded { .. } => true,
        SpotifyError::NetworkError(_) => true,
        SpotifyError::TokenExpired => true,
        SpotifyError::ApiRequestFailed { status, .. } => *status >= 500 || *status == 429
            || *status == 408,
        _ => false,
    }
}

/// Classify one HTTP exchange: the body on success, otherwise the error
/// the status and body map to, tagged retryable exactly for transport
/// faults, expired tokens, rate limits, server errors and timeouts.
pub fn classify_response(o: &WireOutcome) -> (r: Result<String, SpotifyError>)
    ensures
        r is Ok <==> spec_is_success(*o),
        r is Ok ==> r->Ok_0@ == spec_success_body(*o),
        r is Err ==> spec_classified_err(*o, r->Err_0),
        r is Err ==> spec_retryable(r->Err_0) == spec_outcome_retryable(*o),
{
    match o {
        WireOutcome::Transport { message } => Err(
            SpotifyError::NetworkError(message.clone()),
        ),
        WireOutcome::Reply { status, retry_after, body } => {
            let st = *status;
            if st == 200 || st == 201 {
                Ok(body.clone())
            } else if st == 401 {
                Err(SpotifyError::TokenExpired)
            } else if st == 429 {
                let ms = parse_retry_after(retry_after);
                Err(SpotifyError::RateLimitExceeded { retry_after_ms: ms })
            } else if st == 404 {
                if contains_sub(body.as_str(), "track") {
                    Err(SpotifyError::TrackNotFound { track_id: String::from_str("unknown") })
                } else if contains_sub(body.as_str(), "playlist") {
                    Err(
                        SpotifyError::PlaylistNotFound {
                            playlist_id: String::from_str("unknown"),
                        },
                    )
                } else if body.as_str().is_empty() {
                    Err(
                        SpotifyError::ApiRequestFailed {
                            status: 404,
                            message: String::from_str(
                                "404 Not Found - endpoint may not exist or resource not found",
                            ),
                        },
                    )
                } else {
                    Err(SpotifyError::ApiRequestFailed { status: 404, message: body.clone() })
                }
            } else if st == 403 {
                if contains_sub(body.as_str(), "playlist") {
                    Err(
                        SpotifyError::PlaylistAccessDenied {
                            playlist_id: String::from_str("unknown"),
                        },
                    )
                } else {
                    Err(SpotifyError::ApiRequestFailed { status: 403, message: body.clone() })
                }
            } else {
                Err(SpotifyError::ApiRequestFailed { status: st, message: body.clone() })
            }
        },
    }
}

/// What the client does after one failed attempt.
#[derive(Debug, Clone, Copy, PartialEq, Eq, Structural)]
pub enum RetryStep {
    /// Return the error: it is not retryable, or attempts are exhausted.
    GiveUp,
    /// Sleep this many milliseconds, then retry.
    SleepThenRetry(u64),
    /// Refresh the access token, then retry at once.
    RefreshThenRetry,
}

/// A backoff sleep whose length obeys the jittered-backoff bounds for the
/// given 1-indexed attempt.
pub open spec fn spec_backoff_step(c: RetryConfig, attempt: int, step: RetryStep) -> bool {
    step matches RetryStep::SleepThenRetry(d) && d >= MIN_DELAY_FLOOR_MS && d as int
        >= spec_capped_delay(c, attempt) - spec_capped_delay(c, attempt) / 4 && (d as int
        <= spec_capped_delay(c, attempt) + spec_capped_delay(c, attempt) / 4 || d
        == MIN_DELAY_FLOOR_MS)
}

/// Decide what follows a failed attempt. A retry happens exactly when the
/// error is retryable and attempts remain; a rate limit waits the
/// server-given time instead of the computed backoff; an expired token is
/// refreshed and retried at once; every other retryable error waits the
/// jittered backoff for this attempt.
pub fn retry_decision(e: &SpotifyError, attempt: u32, policy: &RetryConfig) -> (s: RetryStep)
    requires
        attempt >= 1,
        policy.backoff_multiplier >= 1,
    ensures
        s is GiveUp <==> !spec_retryable(*e) || attempt >= policy.max_attempts,
        (spec_retryable(*e) && attempt < policy.max_attempts) ==> match *e {
            SpotifyError::RateLimitExceeded { retry_after_ms } => s == RetryStep::SleepThenRetry(
                retry_after_ms,
            ),
            SpotifyError::TokenExpired => s is RefreshThenRetry,
            _ => spec_backoff_step(*policy, attempt as int, s),
        },
{
    if !is_retryable(e) {
        return RetryStep::GiveUp;
    }
    if attempt >= policy.max_attempts {
        return RetryStep::GiveUp;
    }
    match e {
        SpotifyError::RateLimitExceeded { retry_after_ms } => RetryStep::SleepThenRetry(
            *retry_after_ms,
        ),
        SpotifyError::TokenExpired => RetryStep::RefreshThenRetry,
        _ => RetryStep::SleepThenRetry(policy.calculate_delay(attempt)),
    }
}

/// The step taken after the failed attempt `attempt` on outcome `o`.
pub open spec fn spec_step_matches(
    o: WireOutcome,
    attempt: int,
    c: RetryConfig,
    step: RetryStep,
) -> bool {
    match o {
        WireOutcome::Transport { .. } => spec_backoff_step(c, attempt, step),
        WireOutcome::Reply { status, retry_after, .. } => {
            if status == 401 {
                step is RefreshThenRetry
            } else if status == 429 {
                step matches RetryStep::SleepThenRetry(d) && d as int == spec_retry_after_ms(
                    retry_after,
                )
            } else {
                spec_backoff_step(c, attempt, step)
            }
        },
    }
}

/// What one run of the attempt loop did: its outcome, how many attempts it
/// made, and the step taken after each failed attempt but the last.
#[derive(Debug)]
pub struct AttemptTrace {
    /// The classified outcome of the final attempt.
    pub result: Result<String, SpotifyError>,
    /// How many attempts were made, 1-indexed.
    pub attempts: usize,
    /// The step after each non-final attempt; never `GiveUp`.
    pub steps: Vec<RetryStep>,
}

/// The attempt loop over a fixed sequence of exchange outcomes, one per
/// attempt. Attempts stop at the first success or non-retryable error, and
/// never exceed the policy's ceiling; after each earlier attempt stands the
/// step the policy dictates. The transport loop of the running service
/// makes the same decisions one exchange at a time.
pub fn run_attempts(outcomes: &Vec<WireOutcome>, policy: &RetryConfig) -> (t: AttemptTrace)
    requires
        policy.max_attempts >= 1,
        policy.backoff_multiplier >= 1,
        outcomes.len() >= policy.max_attempts,
    ensures
        1 <= t.attempts <= policy.max_attempts,
        t.steps.len() == t.attempts - 1,
        forall|i: int|
            0 <= i < t.attempts - 1 ==> !spec_is_success(#[trigger] outcomes[i])
                && spec_outcome_retryable(outcomes[i]),
        forall|i: int|
            0 <= i < t.attempts - 1 ==> spec_step_matches(
                #[trigger] outcomes[i],
                i + 1,
                *policy,
                t.steps[i],
            ),
        t.result is Ok <==> spec_is_success(outcomes[t.attempts - 1]),
        t.result is Ok ==> t.result->Ok_0@ == spec_success_body(outcomes[t.attempts - 1]),
        t.result is Err ==> spec_classified_err(outcomes[t.attempts - 1], t.result->Err_0),
        t.attempts < policy.max_attempts ==> spec_is_success(outcomes[t.attempts - 1])
            || !spec_outcome_retryable(outcomes[t.attempts - 1]),
{
    let max = policy.max_attempts as usize;
    let mut attempt: usize = 1;
    let mut steps: Vec<RetryStep> = Vec::new();
    while attempt < max
        invariant
            1 <= attempt <= max,
            max == policy.max_attempts,
            policy.backoff_multiplier >= 1,
            outcomes.len() >= max,
            steps.len() == attempt - 1,
            forall|i: int|
                0 <= i < attempt - 1 ==> !spec_is_success(#[trigger] outcomes[i])
                    && spec_outcome_retryable(outcomes[i]),
            forall|i: int|
                0 <= i < attempt - 1 ==> spec_step_matches(
                    #[trigger] outcomes[i],
                    i + 1,
                    *policy,
                    steps[i],
                ),
        decreases max - attempt,
    {
        let o = &outcomes[attempt - 1];
        match classify_response(o) {
            Ok(body) => {
                return AttemptTrace { result: Ok(body), attempts: attempt, steps };
            },
            Err(e) => {
                let step = retry_decision(&e, attempt as u32, policy);
                if matches!(step, RetryStep::GiveUp) {
                    return AttemptTrace { result: Err(e), attempts: attempt, steps };
                }
                steps.push(step);
                attempt = attempt + 1;
            },
        }
    }
    let o = &outcomes[attempt - 1];
    match classify_response(o) {
        Ok(body) => AttemptTrace { result: Ok(body), attempts: attempt, steps },
        Err(e) => AttemptTrace { result: Err(e), attempts: attempt, steps },
    }
}

} // verus!
