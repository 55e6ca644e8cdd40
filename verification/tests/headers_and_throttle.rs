use reddit_rss::headers::{parse_decimal_ms, parse_number_header};
use reddit_rss::throttle::Throttle;

#[test]
fn decimal_whole_seconds() {
    assert_eq!(parse_decimal_ms("1"), Some(1000));
    assert_eq!(parse_decimal_ms("596"), Some(596000));
    assert_eq!(parse_decimal_ms("0"), Some(0));
}

#[test]
fn decimal_fractions() {
    assert_eq!(parse_decimal_ms("596.0"), Some(596000));
    assert_eq!(parse_decimal_ms("0.5"), Some(500));
    assert_eq!(parse_decimal_ms("1.25"), Some(1250));
    assert_eq!(parse_decimal_ms("1.2345"), Some(1234));
    assert_eq!(parse_decimal_ms("1."), Some(1000));
    assert_eq!(parse_decimal_ms("0.001"), Some(1));
}

#[test]
fn decimal_rejects() {
    assert_eq!(parse_decimal_ms(""), None);
    assert_eq!(parse_decimal_ms(".5"), None);
    assert_eq!(parse_decimal_ms("1e3"), None);
    assert_eq!(parse_decimal_ms("-1"), None);
    assert_eq!(parse_decimal_ms("1.2.3"), None);
    assert_eq!(parse_decimal_ms("12a"), None);
}

#[test]
fn decimal_saturates() {
    assert_eq!(
        parse_decimal_ms("99999999999999999999999999"),
        Some(u64::MAX)
    );
}

#[test]
fn number_header_absent_is_nothing() {
    assert_eq!(parse_number_header(None), Ok(None));
    assert_eq!(parse_number_header(Some("2.5")), Ok(Some(2500)));
    assert_eq!(parse_number_header(Some("nonsense")), Err(()));
}

#[test]
fn throttle_opens_and_closes() {
    let mut valve = Throttle::new();
    assert!(valve.acquire_nonexclusive(0));
    assert!(valve.acquire_nonexclusive(u64::MAX));

    let deadline = valve.close_and_wait(1000, 500);
    assert_eq!(deadline, 1500);
    assert!(!valve.acquire_nonexclusive(1000));
    assert!(!valve.acquire_nonexclusive(1499));
    assert!(valve.acquire_nonexclusive(1500));
}

#[test]
fn throttle_latest_closer_wins() {
    let mut valve = Throttle::new();
    valve.pause_until(1000);
    valve.pause_until(500);
    assert!(!valve.acquire_nonexclusive(999));
    assert!(valve.acquire_nonexclusive(1000));
    valve.pause_until(2000);
    assert!(!valve.acquire_nonexclusive(1999));
}

#[test]
fn throttle_deadline_saturates() {
    let mut valve = Throttle::new();
    let deadline = valve.close_and_wait(u64::MAX - 10, 100);
    assert_eq!(deadline, u64::MAX);
    assert!(!valve.acquire_nonexclusive(u64::MAX - 1));
}
