//! Measuring and keeping track of time.

use vstd::prelude::*;
use std::time::{Duration, Instant};

verus! {

#[verifier::external_type_specification]
#[verifier::external_body]
pub struct ExInstant(Instant);

/// The length of a duration in nanoseconds.
pub uninterp spec fn duration_nanos(d: Duration) -> nat;

/// `Duration::as_nanos`: the total number of nanoseconds of the duration.
#[verifier::external_body]
pub(crate) fn duration_as_nanos(d: &Duration) -> (n: u128)
    ensures
        n == duration_nanos(*d),
{
    d.as_nanos()
}

/// `Duration::from_nanos`: the duration of the given number of nanoseconds.
#[verifier::external_body]
pub(crate) fn duration_from_nanos(n: u64) -> (d: Duration)
    ensures
        duration_nanos(d) == n,
{
    Duration::from_nanos(n)
}

/// `Duration::saturating_add`: the sum of the two durations or, where the
/// sum cannot be held, the longest duration there is, which is no shorter
/// than either.
#[verifier::external_body]
pub(crate) fn duration_saturating_add(a: Duration, b: Duration) -> (d: Duration)
    ensures
        duration_nanos(d) <= duration_nanos(a) + duration_nanos(b),
        duration_nanos(d) >= duration_nanos(a),
        duration_nanos(d) >= duration_nanos(b),
{
    a.saturating_add(b)
}

/// `Duration::saturating_sub`: the difference of the two durations, or the
/// empty duration where the second is the longer one.
#[verifier::external_body]
pub(crate) fn duration_saturating_sub(a: Duration, b: Duration) -> (d: Duration)
    ensures
        duration_nanos(d) == (if duration_nanos(a) >= duration_nanos(b) {
            duration_nanos(a) - duration_nanos(b)
        } else {
            0
        }),
{
    a.saturating_sub(b)
}

/// `Instant::now`: the current moment, of which nothing is known.
#[verifier::external_body]
pub(crate) fn instant_now() -> (now: Instant) {
    Instant::now()
}

/// `Instant::duration_since`: the time from the earlier moment to the later
/// one. Nothing is stated of it.
#[verifier::external_body]
pub(crate) fn instant_duration_since(later: &Instant, earlier: &Instant) -> (d: Duration) {
    later.duration_since(*earlier)
}

/// Timer that measures time.
#[derive(Clone, Copy, Debug, PartialEq)]
pub enum Timer {
    /// The timer is doing nothing.
    Idle {
        /// The measured value from the previous run; the empty duration at
        /// first.
        measured: Duration,
    },
    /// The timer is running.
    Running {
        /// The time the timer started to run.
        from: Instant,
        /// The value this timer started with.
        start_value: Duration,
    },
}

impl Timer {
    /// Create a new instance of the timer: idle, with nothing measured.
    pub fn new() -> (t: Timer)
        ensures
            t is Idle,
            duration_nanos(t->measured) == 0,
    {
        Timer::Idle { measured: duration_from_nanos(0) }
    }

    /// Is this timer running?
    pub fn is_running(&self) -> (b: bool)
        ensures
            b == (*self is Running),
    {
        match self {
            Timer::Running { .. } => true,
            Timer::Idle { .. } => false,
        }
    }

    /// Get the measured value.
    ///
    /// This returns the measured value from the previous run if the timer is
    /// idle. If it is running, it is the value that the timer started with
    /// and the time that has passed since, which is no less than the value
    /// it started with.
    pub fn get(&self) -> (d: Duration)
        ensures
            match *self {
                Timer::Idle { measured } => d == measured,
                Timer::Running { from, start_value } => duration_nanos(d) >= duration_nanos(
                    start_value,
                ),
            },
    {
        match *self {
            Timer::Idle { measured } => measured,
            Timer::Running { from, start_value } => {
                let now = instant_now();
                duration_saturating_add(start_value, instant_duration_since(&now, &from))
            },
        }
    }

    /// Start the timer, preserving the stored value from the previous run.
    /// A running timer goes on as it is.
    pub fn start(&mut self)
        ensures
            *final(self) is Running,
            match *old(self) {
                Timer::Idle { measured } => (*final(self))->start_value == measured,
                Timer::Running { .. } => *final(self) == *old(self),
            },
    {
        match *self {
            Timer::Idle { measured } => {
                *self = Timer::Running { from: instant_now(), start_value: measured };
            },
            Timer::Running { .. } => {},
        }
    }

    /// Stop the timer if running; the measured value is then no less than
    /// the value that the timer started with. An idle timer stays as it is.
    pub fn stop(&mut self)
        ensures
            *final(self) is Idle,
            match *old(self) {
                Timer::Idle { .. } => *final(self) == *old(self),
                Timer::Running { from, start_value } => duration_nanos((*final(self))->measured)
                    >= duration_nanos(start_value),
            },
    {
        match *self {
            Timer::Running { from, start_value } => {
                let now = instant_now();
                *self = Timer::Idle {
                    measured: duration_saturating_add(
                        start_value,
                        instant_duration_since(&now, &from),
                    ),
                };
            },
            Timer::Idle { .. } => {},
        }
    }

    /// Reset the timer, discarding all stored values and returning to idle
    /// state.
    pub fn reset(&mut self)
        ensures
            *final(self) is Idle,
            duration_nanos((*final(self))->measured) == 0,
    {
        *self = Timer::new();
    }

    /// Start the timer from a fresh value.
    pub fn restart(&mut self)
        ensures
            *final(self) is Running,
            duration_nanos((*final(self))->start_value) == 0,
    {
        *self = Timer::Running { from: instant_now(), start_value: duration_from_nanos(0) };
    }
}

impl Default for Timer {
    fn default() -> (t: Timer)
        ensures
            t is Idle,
            duration_nanos(t->measured) == 0,
    {
        Timer::new()
    }
}

/// Convert the given duration to nanoseconds.
///
/// A duration of more nanoseconds than 64 bits hold comes out reduced
/// modulo two to the power of 64.
pub fn duration_to_nanoseconds(duration: Duration) -> (n: u64)
    ensures
        n == duration_nanos(duration) % 0x1_0000_0000_0000_0000,
{
    let nanos: u128 = duration_as_nanos(&duration);
    let low: u64 = #[verifier::truncate]
    (nanos as u64);
    assert(low == nanos % 0x1_0000_0000_0000_0000) by (bit_vector)
        requires
            low == nanos as u64,
    ;
    low
}

} // verus!
