use object_spam::duration::{attach, sample_nanos, settle, DurationFuture};
use object_spam::runner::TaskOutcome;
use object_spam::task::{check_fetched_length, decimal_digits, object_key, outcome_of, SizeMismatch};
use std::time::Instant;

#[test]
fn keys_are_test_and_the_index() {
    assert_eq!(object_key(1), b"test_1".to_vec());
    assert_eq!(object_key(0), b"test_0".to_vec());
    assert_eq!(object_key(10), b"test_10".to_vec());
    assert_eq!(object_key(1234567890), b"test_1234567890".to_vec());
    assert_eq!(object_key(usize::MAX), format!("test_{}", usize::MAX).into_bytes());
}

#[test]
fn digits_are_decimal() {
    assert_eq!(decimal_digits(7), b"7".to_vec());
    assert_eq!(decimal_digits(100), b"100".to_vec());
    assert_eq!(decimal_digits(909), b"909".to_vec());
}

#[test]
fn fetched_length_must_match() {
    assert_eq!(check_fetched_length(100, 100), Ok(()));
    assert_eq!(
        check_fetched_length(100, 50),
        Err(SizeMismatch { expected: 100, fetched: 50 })
    );
    assert_eq!(check_fetched_length(0, 0), Ok(()));
}

#[test]
fn timed_results_become_outcomes() {
    let done: Result<((), u64), String> = Ok(((), 1500));
    assert_eq!(outcome_of(&done), TaskOutcome::Success { nanos: 1500 });
    let failed: Result<((), u64), String> = Err(String::from("no such key"));
    assert_eq!(outcome_of(&failed), TaskOutcome::Failure);
}

#[test]
fn durations_in_nanoseconds() {
    assert_eq!(sample_nanos(0, 0), Some(0));
    assert_eq!(sample_nanos(1, 500), Some(1_000_000_500));
    assert_eq!(sample_nanos(0, 10_000_000), Some(10_000_000));
    assert_eq!(sample_nanos(18_446_744_073, 709_551_615), Some(u64::MAX));
    assert_eq!(sample_nanos(18_446_744_073, 709_551_616), None);
    assert_eq!(sample_nanos(u64::MAX, 0), None);
}

#[test]
fn a_duration_is_attached_to_a_success() {
    let result: Result<u8, String> = Ok(9);
    assert_eq!(attach(result, 2, 5), Ok((9u8, 2_000_000_005u64)));
    let long: Result<u8, String> = Ok(9);
    assert_eq!(attach(long, u64::MAX, 0), Ok((9u8, u64::MAX)));
}

#[test]
fn a_failure_passes_through_unchanged() {
    let result: Result<u8, String> = Err(String::from("refused"));
    assert_eq!(attach(result, 2, 5), Err(String::from("refused")));
    let start = Instant::now();
    let later: Result<u8, String> = Err(String::from("refused"));
    assert_eq!(settle(&start, later), Err(String::from("refused")));
    let timed = DurationFuture::new(());
    let last: Result<u8, String> = Err(String::from("refused"));
    assert_eq!(timed.finish(last), Err(String::from("refused")));
}

#[test]
fn the_wrapper_keeps_the_operation_and_times_it() {
    let timed = DurationFuture::new(17u32);
    let before = Instant::now();
    let result: Result<&str, String> = Ok("done");
    match timed.finish(result) {
        Ok((value, nanos)) => {
            assert_eq!(value, "done");
            assert!(nanos < 60_000_000_000);
        }
        Err(_) => panic!("a success became a failure"),
    }
    let (inner, start) = timed.into_parts();
    assert_eq!(inner, 17);
    assert!(start <= before);
}
