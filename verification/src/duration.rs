//! Timing of one operation: the clock is read when the operation is
//! wrapped, just before it starts, and again when it resolves; the time
//! between is attached to its result.

use vstd::prelude::*;
use std::time::{Duration, Instant};

verus! {

/// Nanoseconds in one second.
pub const NANOS_PER_SECOND: u64 = 1_000_000_000;

/// A reading of the monotonic clock of the standard library. Nothing is
/// known of what it holds.
#[verifier::external_type_specification]
#[verifier::external_body]
pub struct ExInstant(Instant);

/// Reads the monotonic clock with `Instant::now`. The reading depends on
/// when the call is made, so nothing is claimed of it.
#[verifier::external_body]
pub(crate) fn clock_now() -> (now: Instant) {
    Instant::now()
}

/// The time from `earlier` to `later` by
/// `Instant::saturating_duration_since`, which gives zero where `later` is
/// the earlier of the two. Nothing is claimed of the result.
#[verifier::external_body]
pub(crate) fn time_between(later: &Instant, earlier: &Instant) -> (span: Duration) {
    later.saturating_duration_since(*earlier)
}

/// The whole seconds of a duration, by `Duration::as_secs`. Nothing is
/// claimed of the result.
#[verifier::external_body]
pub(crate) fn whole_seconds(span: &Duration) -> (secs: u64) {
    span.as_secs()
}

/// The fraction of a second of a duration in nanoseconds, by
/// `Duration::subsec_nanos`, which is documented to be less than one
/// second.
#[verifier::external_body]
pub(crate) fn fraction_nanos(span: &Duration) -> (nanos: u32)
    ensures
        nanos < NANOS_PER_SECOND,
{
    span.subsec_nanos()
}

/// The nanoseconds in a duration of whole seconds and a fraction given in
/// nanoseconds.
pub open spec fn nanos_of(secs: u64, subsec_nanos: u32) -> nat {
    secs as nat * NANOS_PER_SECOND as nat + subsec_nanos as nat
}

/// A duration as one number of nanoseconds; the largest number of 64 bits
/// stands for every duration beyond it.
pub open spec fn saturated_nanos(secs: u64, subsec_nanos: u32) -> u64 {
    if nanos_of(secs, subsec_nanos) <= u64::MAX {
        nanos_of(secs, subsec_nanos) as u64
    } else {
        u64::MAX
    }
}

/// A duration as one number of nanoseconds, when that number fits 64 bits.
pub fn sample_nanos(secs: u64, subsec_nanos: u32) -> (nanos: Option<u64>)
    ensures
        nanos_of(secs, subsec_nanos) <= u64::MAX ==> nanos == Some(
            nanos_of(secs, subsec_nanos) as u64,
        ),
        nanos_of(secs, subsec_nanos) > u64::MAX ==> nanos is None,
{
    match secs.checked_mul(NANOS_PER_SECOND) {
        Some(whole) => whole.checked_add(subsec_nanos as u64),
        None => None,
    }
}

/// Attaches a duration to the result of an operation. A failure passes
/// through unchanged.
pub fn attach<T, E>(result: Result<T, E>, secs: u64, subsec_nanos: u32) -> (timed: Result<
    (T, u64),
    E,
>)
    ensures
        match result {
            Ok(value) => timed == Ok::<(T, u64), E>((value, saturated_nanos(secs, subsec_nanos))),
            Err(error) => timed == Err::<(T, u64), E>(error),
        },
{
    match result {
        Ok(value) => {
            let nanos = match sample_nanos(secs, subsec_nanos) {
                Some(nanos) => nanos,
                None => u64::MAX,
            };
            Ok((value, nanos))
        },
        Err(error) => Err(error),
    }
}

/// Attaches to a result the time that has passed since `start`.
/// What the duration is depends on the clock; the value or the failure is
/// that of `result`.
pub fn settle<T, E>(start: &Instant, result: Result<T, E>) -> (timed: Result<(T, u64), E>)
    ensures
        match result {
            Ok(value) => timed matches Ok(pair) && pair.0 == value,
            Err(error) => timed == Err::<(T, u64), E>(error),
        },
{
    let now = clock_now();
    let span = time_between(&now, start);
    attach(result, whole_seconds(&span), fraction_nanos(&span))
}

/// An operation together with the clock reading taken when it was wrapped,
/// which is just before it is started.
pub struct DurationFuture<F> {
    inner: F,
    start: Instant,
}

impl<F> DurationFuture<F> {
    /// The wrapped operation.
    pub closed spec fn spec_inner(&self) -> F {
        self.inner
    }

    /// The clock reading at construction.
    pub closed spec fn spec_start(&self) -> Instant {
        self.start
    }

    /// Wraps an operation that is about to start, and reads the clock.
    pub fn new(inner: F) -> (timed: Self)
        ensures
            timed.spec_inner() == inner,
    {
        DurationFuture { inner, start: clock_now() }
    }

    /// Attaches to the result of the operation the time since construction.
    /// A failure passes through unchanged.
    pub fn finish<T, E>(&self, result: Result<T, E>) -> (timed: Result<(T, u64), E>)
        ensures
            match result {
                Ok(value) => timed matches Ok(pair) && pair.0 == value,
                Err(error) => timed == Err::<(T, u64), E>(error),
            },
    {
        settle(&self.start, result)
    }

    /// Gives the operation back to be driven, with the clock reading at
    /// construction.
    pub fn into_parts(self) -> (parts: (F, Instant))
        ensures
            parts.0 == self.spec_inner(),
            parts.1 == self.spec_start(),
    {
        (self.inner, self.start)
    }
}

} // verus!
