//! Automatic retry of model requests: the attempt limit, which statuses are
//! retried, and the back-off before the next attempt.
use vstd::prelude::*;

verus! {

/// Total attempts of one generation request (the first one and the retries).
pub const MAX_ATTEMPTS: usize = 3;

/// The exponential part of the back-off of attempt `attempt` (1-based), in
/// milliseconds: 500 ms doubled per earlier attempt, at most 5 s.
pub open spec fn backoff_base_ms(attempt: nat) -> u64 {
    if attempt <= 1 {
        500
    } else if attempt == 2 {
        1000
    } else if attempt == 3 {
        2000
    } else if attempt == 4 {
        4000
    } else {
        5000
    }
}

/// The back-off in milliseconds with a given jitter: an upstream
/// `Retry-After` (seconds, at most 30) wins; otherwise the exponential base
/// plus the jitter.
pub open spec fn retry_delay_ms(attempt: nat, retry_after: Option<u64>, jitter: u64) -> int {
    match retry_after {
        Some(secs) => (if secs < 30 { secs } else { 30 }) * 1000,
        None => backoff_base_ms(attempt) + jitter,
    }
}

/// The back-off before retrying attempt `attempt`, with the jitter given
/// (attempts beyond 64 overflow the doubling shift and are not accepted).
pub fn retry_delay_with_jitter(attempt: usize, retry_after: Option<u64>, jitter: u64) -> (r: u64)
    requires
        jitter < 250,
        attempt <= 64,
    ensures
        r as int == retry_delay_ms(attempt as nat, retry_after, jitter),
{
    match retry_after {
        Some(secs) => {
            let s = if secs < 30 { secs } else { 30 };
            s * 1000
        },
        None => {
            let base: u64 = if attempt <= 1 {
                500
            } else if attempt == 2 {
                1000
            } else if attempt == 3 {
                2000
            } else if attempt == 4 {
                4000
            } else {
                5000
            };
            base + jitter
        },
    }
}

/// A jitter below 250 ms: the clock's sub-second nanoseconds modulo 250.
fn clock_jitter_ms() -> (r: u64)
    ensures
        r < 250,
{
    (crate::utils::clock::clock_subsec_nanos() % 250) as u64
}

/// The back-off in milliseconds before retrying attempt `attempt`, with a
/// clock-derived jitter below 250 ms when no `Retry-After` is given.
pub fn retry_delay(attempt: usize, retry_after: Option<u64>) -> (r: u64)
    requires
        attempt <= 64,
    ensures
        exists|j: u64| j < 250 && r as int == retry_delay_ms(attempt as nat, retry_after, j),
{
    match retry_after {
        Some(_) => retry_delay_with_jitter(attempt, retry_after, 0),
        None => {
            let j = clock_jitter_ms();
            retry_delay_with_jitter(attempt, retry_after, j)
        },
    }
}

/// Statuses after which a request is retried: 408, 429, 500, 502, 503, 504.
pub open spec fn retryable(status: u16) -> bool {
    status == 408 || status == 429 || status == 500 || status == 502 || status == 503 || status
        == 504
}

/// Whether a response status is worth retrying.
pub fn is_retryable_status(status: u16) -> (r: bool)
    ensures
        r == retryable(status),
{
    status == 408 || status == 429 || status == 500 || status == 502 || status == 503 || status
        == 504
}

/// Whether a failed attempt is followed by another one: only for a retryable
/// failure, and only while attempts remain.
pub fn should_retry(attempt: usize, retryable_failure: bool) -> (r: bool)
    ensures
        r == (retryable_failure && attempt < MAX_ATTEMPTS),
{
    retryable_failure && attempt < MAX_ATTEMPTS
}

/// The wait before a retry is bounded: with no `Retry-After` it is at least
/// 500 ms and below 5.25 s (5 s of back-off and less than 250 ms of jitter);
/// an upstream `Retry-After` is followed but never beyond 30 s.
pub proof fn law_retry_delay_bounded(attempt: nat, retry_after: Option<u64>, jitter: u64)
    requires
        jitter < 250,
    ensures
        retry_after is None ==> 500 <= retry_delay_ms(attempt, retry_after, jitter) < 5250,
        retry_after is Some ==> 0 <= retry_delay_ms(attempt, retry_after, jitter) <= 30000,
{
}

/// The back-off never shrinks from one attempt to the next.
pub proof fn law_backoff_grows(a: nat, b: nat)
    ensures
        a <= b ==> backoff_base_ms(a) <= backoff_base_ms(b),
{
}

/// The retried statuses are exactly request timeout (408), too many
/// requests (429) and the server errors 500, 502, 503 and 504; every other
/// status, 501 and all 2xx/3xx/other 4xx among them, fails at once.
pub proof fn law_retryable_statuses(status: u16)
    ensures
        retryable(status) <==> (status == 408 || status == 429 || (500 <= status <= 504 && status != 501)),
        retryable(status) ==> (400 <= status < 600),
{
}

/// The back-off starts at 500 ms and doubles from one attempt to the next
/// until it is capped at 5 s.
pub proof fn law_backoff_doubles(a: nat)
    ensures
        backoff_base_ms(0) == 500 && backoff_base_ms(1) == 500,
        a >= 1 ==> backoff_base_ms(a + 1) == if 2 * backoff_base_ms(a) < 5000 { 2 * backoff_base_ms(a) } else { 5000 },
{
}

} // verus!
