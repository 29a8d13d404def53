//! Which failures are tried again, and when.

use std::str::FromStr;

use http::HeaderMap;
use http::HeaderName;
use http::HeaderValue;
use tokencode::retry::after_failure;
use tokencode::retry::backoff;
use tokencode::retry::decided_after_failure;
use tokencode::retry::parse_retry_after_header;
use tokencode::retry::RetryAfter;
use tokencode::retry::RetryOn;
use tokencode::retry::RetryPolicy;
use tokencode::retry::RetryStep;
use tokencode::retry::TransportError;

fn headers(pairs: &[(&str, &str)]) -> HeaderMap {
    let mut h = HeaderMap::new();
    for (k, v) in pairs {
        h.insert(HeaderName::from_str(k).unwrap(), HeaderValue::from_str(v).unwrap());
    }
    h
}

fn policy() -> RetryPolicy {
    RetryPolicy {
        max_attempts: 3,
        base_delay: 200,
        retry_on: RetryOn { retry_429: true, retry_5xx: true, retry_transport: false },
    }
}

#[test]
fn parse_retry_after_seconds() {
    let h = headers(&[("retry-after", "30")]);
    assert_eq!(parse_retry_after_header(&h), Some(RetryAfter::Secs(30)));
}

#[test]
fn parse_retry_after_millis() {
    let h = headers(&[("retry-after-ms", "500")]);
    assert_eq!(parse_retry_after_header(&h), Some(RetryAfter::Millis(500)));
}

#[test]
fn parse_retry_after_ms_takes_precedence() {
    let h = headers(&[("retry-after", "30"), ("retry-after-ms", "500")]);
    assert_eq!(parse_retry_after_header(&h), Some(RetryAfter::Millis(500)));
}

#[test]
fn parse_retry_after_missing_returns_none() {
    assert_eq!(parse_retry_after_header(&HeaderMap::new()), None);
}

#[test]
fn parse_retry_after_invalid_value_returns_none() {
    let h = headers(&[("retry-after", "abc")]);
    assert_eq!(parse_retry_after_header(&h), None);
}

#[test]
fn parse_retry_after_case_insensitive() {
    let h = headers(&[("Retry-After", "30")]);
    assert_eq!(parse_retry_after_header(&h), Some(RetryAfter::Secs(30)));
}

#[test]
fn parse_retry_after_unreadable_millis_fall_back_to_seconds() {
    let h = headers(&[("retry-after", "7"), ("retry-after-ms", "soon")]);
    assert_eq!(parse_retry_after_header(&h), Some(RetryAfter::Secs(7)));
}

#[test]
fn parse_retry_after_bytes_that_are_no_text() {
    let mut h = HeaderMap::new();
    h.insert("retry-after", HeaderValue::from_bytes(&[0xff, 0x31]).unwrap());
    assert_eq!(parse_retry_after_header(&h), None);
}

#[test]
fn backoff_doubles() {
    assert_eq!(backoff(200, 0), 200);
    assert_eq!(backoff(200, 1), 200);
    assert_eq!(backoff(200, 2), 400);
    assert_eq!(backoff(200, 5), 3200);
    assert_eq!(backoff(u64::MAX, 2), u64::MAX);
    assert_eq!(backoff(1, 200), u64::MAX);
}

#[test]
fn should_retry_by_status_and_kind() {
    let on = policy().retry_on;
    let http = |status: u16| TransportError::Http { status, headers: None };
    assert!(on.should_retry(&http(429), 0, 3));
    assert!(on.should_retry(&http(500), 0, 3));
    assert!(on.should_retry(&http(599), 2, 3));
    assert!(!on.should_retry(&http(599), 3, 3));
    assert!(!on.should_retry(&http(404), 0, 3));
    assert!(!on.should_retry(&http(600), 0, 3));
    assert!(!on.should_retry(&TransportError::Timeout, 0, 3));
    assert!(!on.should_retry(&TransportError::RetryLimit, 0, 3));
    let on = RetryOn { retry_429: false, retry_5xx: false, retry_transport: true };
    assert!(on.should_retry(&TransportError::Timeout, 0, 3));
    assert!(on.should_retry(&TransportError::Network("reset".to_string()), 0, 3));
    assert!(!on.should_retry(&TransportError::Build("bad".to_string()), 0, 3));
    assert!(!on.should_retry(&http(429), 0, 3));
}

#[test]
fn a_failure_is_answered_by_a_wait_or_given_up() {
    let busy = TransportError::Http { status: 503, headers: None };
    assert_eq!(after_failure(&policy(), &busy, 0), RetryStep::WaitAbout(200));
    assert_eq!(after_failure(&policy(), &busy, 2), RetryStep::WaitAbout(800));
    assert_eq!(after_failure(&policy(), &busy, 3), RetryStep::GiveUp);
    let asked = TransportError::Http {
        status: 429,
        headers: Some(headers(&[("retry-after", "2")])),
    };
    assert_eq!(
        after_failure(&policy(), &asked, 0),
        RetryStep::WaitAsAsked(RetryAfter::Secs(2))
    );
    assert_eq!(after_failure(&policy(), &TransportError::Timeout, 0), RetryStep::GiveUp);
}

#[test]
fn a_try_that_cannot_be_counted_is_decided_unless_a_delay_is_counted_from_it() {
    let mut patient = policy();
    patient.max_attempts = u64::MAX;
    let last: u64 = 0xffff_ffff;
    let busy = TransportError::Http { status: 503, headers: None };
    assert_eq!(decided_after_failure(&patient, &busy, last), None);
    assert_eq!(
        decided_after_failure(&patient, &busy, last + 1),
        Some(after_failure(&patient, &busy, last + 1))
    );
    assert_eq!(after_failure(&patient, &TransportError::Timeout, last), RetryStep::GiveUp);
    let asked = TransportError::Http {
        status: 429,
        headers: Some(headers(&[("retry-after", "2")])),
    };
    assert_eq!(
        decided_after_failure(&patient, &asked, last),
        Some(RetryStep::WaitAsAsked(RetryAfter::Secs(2)))
    );
}
