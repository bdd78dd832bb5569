//! Download retry decisions: which request failures merit another
//! attempt, and how long to back off before it. The requests themselves
//! are the surrounding program's work.

use vstd::prelude::*;

verus! {

/// The observable shape of one failed request, as the HTTP client
/// reports it.
#[derive(Clone, Copy, PartialEq, Eq, Structural)]
pub struct RequestErrorFacts {
    /// The request timed out.
    pub is_timeout: bool,
    /// The connection could not be established.
    pub is_connect: bool,
    /// The response body could not be decoded.
    pub is_decode: bool,
    /// The response body could not be read.
    pub is_body: bool,
    /// The request could not even be built.
    pub is_builder: bool,
    /// The request failed while being sent.
    pub is_request: bool,
    /// Too many redirects.
    pub is_redirect: bool,
    /// The status code the server answered with, if any.
    pub status: Option<u16>,
}

/// The status codes worth another attempt: timeouts, throttling, and
/// transient server-side failures.
pub open spec fn retryable_status(code: u16) -> bool {
    code == 408 || code == 425 || code == 429 || code == 500 || code == 502 || code == 503 || code
        == 504
}

/// Whether a failed request merits another attempt: timeouts and
/// connection failures always do; malformed requests and responses never
/// do; a status-bearing failure does exactly for the transient codes;
/// anything else is retried.
pub open spec fn spec_retryable(f: RequestErrorFacts) -> bool {
    if f.is_timeout || f.is_connect {
        true
    } else if f.is_decode || f.is_body || f.is_builder || f.is_request || f.is_redirect {
        false
    } else {
        match f.status {
            Some(code) => retryable_status(code),
            None => true,
        }
    }
}

/// Decide whether a failed request merits another attempt.
pub fn is_request_retryable_based_on_error(f: &RequestErrorFacts) -> (r: bool)
    ensures
        r == spec_retryable(*f),
{
    if f.is_timeout || f.is_connect {
        return true;
    }
    if f.is_decode || f.is_body || f.is_builder || f.is_request || f.is_redirect {
        return false;
    }
    match f.status {
        Some(code) => {
            code == 408 || code == 425 || code == 429 || code == 500 || code == 502 || code == 503
                || code == 504
        }
        None => true,
    }
}

/// Two to the given power.
pub open spec fn pow2(n: nat) -> nat
    decreases n,
{
    if n == 0 {
        1
    } else {
        2 * pow2((n - 1) as nat)
    }
}

/// How many download attempts are made before the failure is terminal.
pub fn download_attempts() -> (r: u32)
    ensures
        r == 8,
{
    8
}

/// The backoff before a retry: 200 milliseconds doubled per prior
/// retry, so the final attempt of the default schedule waits about
/// twelve seconds.
pub fn retry_wait_ms(attempt_num: u32) -> (r: u64)
    requires
        1 <= attempt_num <= 32,
    ensures
        r == 200 * pow2((attempt_num - 1) as nat),
{
    let mut factor: u64 = 1;
    let mut i: u32 = 1;
    while i < attempt_num
        invariant
            1 <= i <= attempt_num <= 32,
            factor == pow2((i - 1) as nat),
            factor <= 0x8000_0000,
        decreases attempt_num - i,
    {
        proof {
            lemma_pow2_mono((i - 1) as nat, 31);
            lemma_pow2_mono(i as nat, 31);
            lemma_pow2_31();
        }
        factor = factor * 2;
        i = i + 1;
    }
    200 * factor
}

/// The largest power of two the backoff schedule can reach.
#[verifier::rlimit(50)]
proof fn lemma_pow2_31()
    ensures
        pow2(31) == 0x8000_0000,
{
    reveal_with_fuel(pow2, 32);
}

/// Powers of two grow with the exponent.
proof fn lemma_pow2_mono(m: nat, n: nat)
    requires
        m <= n,
    ensures
        pow2(m) <= pow2(n),
    decreases n,
{
    if m < n {
        lemma_pow2_mono(m, (n - 1) as nat);
        assert(pow2(n) == 2 * pow2((n - 1) as nat));
        assert(pow2((n - 1) as nat) >= 1) by {
            lemma_pow2_pos((n - 1) as nat);
        }
    }
}

/// Powers of two are positive.
proof fn lemma_pow2_pos(n: nat)
    ensures
        pow2(n) >= 1,
    decreases n,
{
    if n > 0 {
        lemma_pow2_pos((n - 1) as nat);
    }
}

} // verus!
