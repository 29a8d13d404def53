//! When a failed request is tried again, and how long to wait before.

use vstd::arithmetic::power2::lemma_pow2_pos;
use vstd::arithmetic::power2::lemma_pow2_unfold;
use vstd::arithmetic::power2::pow2;
use vstd::prelude::*;
use vstd::string::*;

use crate::endpoint::preamble::header_says;
use crate::endpoint::preamble::read_header;
use crate::headers::header_fields;
use crate::headers::plain_header_name;
use crate::text::decimal;
use crate::text::law_numerals_are_read_back;
use crate::text::parse_u64;
use crate::text::parsed_u64;

verus! {

/// Why a request failed.
#[derive(Debug)]
pub enum TransportError {
    /// The server answered with a status that is no success.
    Http { status: u16, headers: Option<http::HeaderMap> },
    RetryLimit,
    Timeout,
    Network(String),
    Build(String),
}

/// Which failures are worth another try.
#[derive(Debug, Clone, Copy)]
pub struct RetryOn {
    pub retry_429: bool,
    pub retry_5xx: bool,
    pub retry_transport: bool,
}

/// How often and how soon a request is tried again. The delay is in
/// milliseconds.
#[derive(Debug, Clone, Copy)]
pub struct RetryPolicy {
    pub max_attempts: u64,
    pub base_delay: u64,
    pub retry_on: RetryOn,
}

/// A delay that a server asks for.
#[derive(Debug, Clone, Copy, PartialEq, Eq)]
pub enum RetryAfter {
    Millis(u64),
    Secs(u64),
}

/// Whether a failure is worth another try while there are tries left.
pub open spec fn retryable(on: RetryOn, err: TransportError) -> bool {
    match err {
        TransportError::Http { status, .. } => {
            ||| on.retry_429 && status == 429
            ||| on.retry_5xx && 500 <= status < 600
        },
        TransportError::Timeout => on.retry_transport,
        TransportError::Network(_) => on.retry_transport,
        TransportError::RetryLimit => false,
        TransportError::Build(_) => false,
    }
}

impl RetryOn {
    /// Whether to try again after the given number of tries.
    pub fn should_retry(&self, err: &TransportError, attempt: u64, max_attempts: u64) -> (r: bool)
        ensures
            r == (attempt < max_attempts && retryable(*self, *err)),
    {
        if attempt >= max_attempts {
            return false;
        }
        match err {
            TransportError::Http { status, .. } => {
                (self.retry_429 && *status == 429) || (self.retry_5xx && 500 <= *status && *status
                    < 600)
            },
            TransportError::Timeout | TransportError::Network(_) => self.retry_transport,
            _ => false,
        }
    }
}

/// The exponent that a try doubles the delay by. Tries are counted in 32 bits.
pub open spec fn doublings(attempt: u64) -> int {
    (attempt as int) % 0x1_0000_0000 - 1
}

/// The delay before a try, in milliseconds, before it is spread at random: the
/// base, doubled with every try, as far as it fits.
pub open spec fn backoff_delay(base: u64, attempt: u64) -> int {
    if attempt == 0 {
        base as int
    } else if base * pow2(doublings(attempt) as nat) > u64::MAX {
        u64::MAX as int
    } else {
        base * pow2(doublings(attempt) as nat)
    }
}

/// A delay that has outgrown its bound stays out of it.
proof fn lemma_outgrown(base: u64, small: nat, large: nat)
    requires
        small <= large,
        base * pow2(small) > u64::MAX,
    ensures
        base * pow2(large) > u64::MAX,
    decreases large - small,
{
    if small < large {
        lemma_outgrown(base, small, (large - 1) as nat);
        lemma_pow2_unfold(large);
        assert(base * (2 * pow2((large - 1) as nat)) == 2 * (base * pow2((large - 1) as nat)))
            by (nonlinear_arith);
    }
}

/// The delay before a try, in milliseconds, before it is spread at random.
pub fn backoff(base: u64, attempt: u64) -> (r: u64)
    requires
        attempt == 0 || attempt % 0x1_0000_0000 != 0,
    ensures
        r == backoff_delay(base, attempt),
{
    if attempt == 0 || base == 0 {
        assert(0 * pow2(doublings(attempt) as nat) == 0) by (nonlinear_arith);
        return base;
    }
    let n: u64 = attempt % 0x1_0000_0000 - 1;
    let mut delay: u64 = base;
    let mut i: u64 = 0;
    proof {
        vstd::arithmetic::power2::lemma2_to64();
    }
    assert(base * pow2(0) == base) by (nonlinear_arith)
        requires
            pow2(0) == 1,
    ;
    while i < n
        invariant
            i <= n,
            n == doublings(attempt),
            attempt != 0,
            base > 0,
            delay == base * pow2(i as nat),
            delay > 0,
        decreases n - i,
    {
        proof {
            lemma_pow2_unfold((i + 1) as nat);
            assert(base * (2 * pow2(i as nat)) == 2 * (base * pow2(i as nat))) by (nonlinear_arith);
        }
        if delay > u64::MAX / 2 {
            proof {
                lemma_outgrown(base, (i + 1) as nat, n as nat);
            }
            return u64::MAX;
        }
        delay = delay * 2;
        i += 1;
    }
    delay
}

/// The delay that headers ask for: milliseconds where they give them, and
/// otherwise seconds.
pub open spec fn asked_delay(fields: Map<Seq<char>, Seq<Seq<u8>>>) -> Option<RetryAfter> {
    match said_number(fields, "retry-after-ms"@) {
        Some(n) => Some(RetryAfter::Millis(n)),
        None => match said_number(fields, "retry-after"@) {
            Some(n) => Some(RetryAfter::Secs(n)),
            None => None,
        },
    }
}

/// The number that a header gives.
pub open spec fn said_number(fields: Map<Seq<char>, Seq<Seq<u8>>>, name: Seq<char>) -> Option<u64> {
    match header_says(fields, name) {
        Some(text) => parsed_u64(text),
        None => None,
    }
}

fn read_number(headers: &http::HeaderMap, name: &str) -> (r: Option<u64>)
    requires
        plain_header_name(name@),
    ensures
        r == said_number(header_fields(*headers), name@),
{
    match read_header(headers, name) {
        Some(text) => parse_u64(text.as_str()),
        None => None,
    }
}

/// Reads the delay that headers ask for. Dates are not understood.
pub fn parse_retry_after_header(headers: &http::HeaderMap) -> (r: Option<RetryAfter>)
    ensures
        r == asked_delay(header_fields(*headers)),
{
    proof {
        reveal_strlit("retry-after-ms");
        reveal_strlit("retry-after");
        assert(plain_header_name("retry-after-ms"@));
        assert(plain_header_name("retry-after"@));
    }
    if let Some(ms) = read_number(headers, "retry-after-ms") {
        return Some(RetryAfter::Millis(ms));
    }
    match read_number(headers, "retry-after") {
        Some(secs) => Some(RetryAfter::Secs(secs)),
        None => None,
    }
}

/// What to do after a failed try.
#[derive(Debug, Clone, Copy, PartialEq, Eq)]
pub enum RetryStep {
    /// Hand the failure on.
    GiveUp,
    /// Wait as long as the server asks for, and try again.
    WaitAsAsked(RetryAfter),
    /// Wait about as many milliseconds, and try again.
    WaitAbout(u64),
}

/// The headers of a failure.
pub open spec fn failure_headers(err: TransportError) -> Option<http::HeaderMap> {
    match err {
        TransportError::Http { headers, .. } => headers,
        _ => None,
    }
}

/// What to do after the failure of a try.
pub open spec fn step_after(policy: RetryPolicy, err: TransportError, attempt: u64) -> RetryStep {
    if attempt < policy.max_attempts && retryable(policy.retry_on, err) {
        let asked = match failure_headers(err) {
            Some(headers) => asked_delay(header_fields(headers)),
            None => None,
        };
        match asked {
            Some(delay) => RetryStep::WaitAsAsked(delay),
            None => RetryStep::WaitAbout(
                backoff_delay(policy.base_delay, (attempt + 1) as u64) as u64,
            ),
        }
    } else {
        RetryStep::GiveUp
    }
}

/// Whether the next try has a number from which a delay can be counted.
pub open spec fn countable(attempt: u64) -> bool {
    (attempt + 1) % 0x1_0000_0000 != 0
}

/// Decides what to do after the failure of a try; the first try is number zero.
/// A delay that the server asks for comes first.
pub fn after_failure(policy: &RetryPolicy, err: &TransportError, attempt: u64) -> (r: RetryStep)
    requires
        step_after(*policy, *err, attempt) is WaitAbout ==> countable(attempt),
    ensures
        r == step_after(*policy, *err, attempt),
{
    if !policy.retry_on.should_retry(err, attempt, policy.max_attempts) {
        return RetryStep::GiveUp;
    }
    if let TransportError::Http { headers: Some(headers), .. } = err {
        if let Some(delay) = parse_retry_after_header(headers) {
            return RetryStep::WaitAsAsked(delay);
        }
    }
    RetryStep::WaitAbout(backoff(policy.base_delay, attempt + 1))
}

/// Decides what to do after the failure of a try, where that can be decided: a
/// delay that nobody asks for is counted from the number of the next try.
pub fn decided_after_failure(
    policy: &RetryPolicy,
    err: &TransportError,
    attempt: u64,
) -> (r: Option<RetryStep>)
    ensures
        r == (if step_after(*policy, *err, attempt) is WaitAbout && !countable(attempt) {
            None
        } else {
            Some(step_after(*policy, *err, attempt))
        }),
{
    if attempt % 0x1_0000_0000 == 0xffff_ffff && policy.retry_on.should_retry(
        err,
        attempt,
        policy.max_attempts,
    ) {
        let asked = match err {
            TransportError::Http { headers: Some(headers), .. } => parse_retry_after_header(headers),
            _ => None,
        };
        if asked.is_none() {
            return None;
        }
    }
    Some(after_failure(policy, err, attempt))
}

/// After the last try that a policy allows, a failure is handed on.
pub proof fn law_tries_are_bounded(policy: RetryPolicy, err: TransportError, attempt: u64)
    requires
        attempt >= policy.max_attempts,
    ensures
        step_after(policy, err, attempt) == RetryStep::GiveUp,
{
}

/// A delay in milliseconds is preferred to one in seconds.
pub proof fn law_milliseconds_come_first(fields: Map<Seq<char>, Seq<Seq<u8>>>, millis: u64)
    requires
        said_number(fields, "retry-after-ms"@) == Some(millis),
    ensures
        asked_delay(fields) == Some(RetryAfter::Millis(millis)),
{
}

/// Delays grow with the tries.
pub proof fn law_backoff_grows(base: u64, attempt: u64)
    requires
        0 < attempt < 0xffff_ffff,
    ensures
        backoff_delay(base, attempt) <= backoff_delay(base, (attempt + 1) as u64),
{
    let n = doublings(attempt) as nat;
    lemma_pow2_unfold((n + 1) as nat);
    assert(base * (2 * pow2(n)) == 2 * (base * pow2(n))) by (nonlinear_arith);
    lemma_pow2_pos(n);
    assert(base * pow2(n) >= 0) by (nonlinear_arith);
}

/// The first try waits for the base, and every further one for twice as long as the
/// one before, as far as that can be counted.
pub proof fn law_backoff_doubles(base: u64, attempt: u64)
    requires
        0 < attempt < 0xffff_ffff,
    ensures
        backoff_delay(base, 0) == base,
        backoff_delay(base, 1) == base,
        2 * backoff_delay(base, attempt) <= u64::MAX ==> backoff_delay(base, (attempt + 1) as u64)
            == 2 * backoff_delay(base, attempt),
        2 * backoff_delay(base, attempt) > u64::MAX ==> backoff_delay(base, (attempt + 1) as u64)
            == u64::MAX,
{
    let n = doublings(attempt) as nat;
    lemma_pow2_unfold((n + 1) as nat);
    assert(base * (2 * pow2(n)) == 2 * (base * pow2(n))) by (nonlinear_arith);
    lemma_pow2_pos(n);
    assert(base * pow2(n) >= 0) by (nonlinear_arith);
    vstd::arithmetic::power2::lemma2_to64();
    assert(base * pow2(0) == base) by (nonlinear_arith)
        requires
            pow2(0) == 1,
    ;
    assert(doublings(1) == 0);
    assert(doublings((attempt + 1) as u64) == n + 1);
}

/// Another try is made while tries are left: after a refusal of the server when such
/// refusals are tried again, too many requests and faults of the server apart, and
/// after a request that did not get through when those are.
pub proof fn law_failures_worth_another_try(
    policy: RetryPolicy,
    attempt: u64,
    status: u16,
    headers: Option<http::HeaderMap>,
    why: String,
)
    ensures
        step_after(policy, TransportError::Http { status, headers }, attempt) != RetryStep::GiveUp
            <==> attempt < policy.max_attempts && (status == 429 && policy.retry_on.retry_429 || 500
            <= status <= 599 && policy.retry_on.retry_5xx),
        step_after(policy, TransportError::Timeout, attempt) != RetryStep::GiveUp <==> attempt
            < policy.max_attempts && policy.retry_on.retry_transport,
        step_after(policy, TransportError::Network(why), attempt) != RetryStep::GiveUp <==> attempt
            < policy.max_attempts && policy.retry_on.retry_transport,
        step_after(policy, TransportError::RetryLimit, attempt) == RetryStep::GiveUp,
        step_after(policy, TransportError::Build(why), attempt) == RetryStep::GiveUp,
{
}

/// Where another try is made, the server's wish decides how long to wait, and without
/// one the number of the next try does.
pub proof fn law_next_try_waits(policy: RetryPolicy, err: TransportError, attempt: u64, asked: u64)
    requires
        step_after(policy, err, attempt) != RetryStep::GiveUp,
        countable(attempt),
    ensures
        !(err is Http) ==> step_after(policy, err, attempt) is WaitAbout,
        step_after(policy, err, attempt) matches RetryStep::WaitAbout(delay) ==> (attempt == 0
            ==> delay == policy.base_delay) && delay == backoff_delay(
            policy.base_delay,
            (attempt + 1) as u64,
        ),
        err matches TransportError::Http { headers: Some(headers), .. } ==> {
            let fields = header_fields(headers);
            let step = step_after(policy, err, attempt);
            &&& header_says(fields, "retry-after-ms"@) is None && header_says(
                fields,
                "retry-after"@,
            ) is None ==> step is WaitAbout
            &&& header_says(fields, "retry-after-ms"@) == Some(decimal(asked as nat)) ==> step
                == RetryStep::WaitAsAsked(RetryAfter::Millis(asked))
            &&& header_says(fields, "retry-after-ms"@) is None && header_says(
                fields,
                "retry-after"@,
            ) == Some(decimal(asked as nat)) ==> step == RetryStep::WaitAsAsked(
                RetryAfter::Secs(asked),
            )
        },
{
    law_numerals_are_read_back(asked);
    if attempt == 0 {
        law_backoff_doubles(policy.base_delay, 1);
    }
    let n = doublings((attempt + 1) as u64) as nat;
    assert(policy.base_delay * pow2(n) >= 0) by (nonlinear_arith);
}

} // verus!
