//! Things related to frame rate.

use vstd::prelude::*;
use std::time::{Duration, Instant};
use crate::base::sized_queue::SizedQueue;
use crate::base::time::{
    duration_as_nanos, duration_from_nanos, duration_nanos, duration_saturating_sub,
    duration_to_nanoseconds, instant_now,
};

verus! {

/// How to wait for the time to start the next frame.
#[derive(Clone, Copy, Debug, PartialEq, Eq, Hash)]
pub enum FrameRateStrategy {
    /// Ignore the desired fps value and make the frame rate as fast as
    /// possible.
    AsFastAsPossible,
    /// Keep the frame rate as close as possible to the desired fps value.
    ///
    /// This is the default value.
    Precise,
    /// Keep the frame rate equal to or slower than the desired fps value, by
    /// sleeping for at least the frame duration.
    EqualOrSlower,
    /// Try to roughly keep up to the desired fps value by sleeping until the
    /// given duration remains and then doing the same thing as `Precise`.
    Rough {
        /// How much time to leave at most before this frame should end.
        until_left: Duration,
    },
}

impl Default for FrameRateStrategy {
    fn default() -> (s: Self)
        ensures
            s is Precise,
    {
        FrameRateStrategy::Precise
    }
}

/// Configuration for frame rate keeping.
#[derive(Clone, Copy, Debug)]
pub struct FrameRateConfig {
    /// Desired frame per second.
    pub fps: u32,
    /// How to wait for the time to start the next frame.
    pub strategy: FrameRateStrategy,
}

impl FrameRateConfig {
    /// Create a new instance with default values: 144 frames per second,
    /// kept precisely.
    pub fn new() -> (c: Self)
        ensures
            c.fps == 144,
            c.strategy is Precise,
    {
        FrameRateConfig { fps: 144, strategy: FrameRateStrategy::Precise }
    }
}

impl Default for FrameRateConfig {
    fn default() -> (c: Self)
        ensures
            c.fps == 144,
            c.strategy is Precise,
    {
        FrameRateConfig::new()
    }
}

/// Get the duration of a single frame from the given fps value: one second
/// divided by it, rounded down to whole nanoseconds.
pub fn frame_duration_from_fps(fps: u32) -> (d: Duration)
    requires
        fps > 0,
    ensures
        duration_nanos(d) == 1_000_000_000int / (fps as int),
{
    let second: u64 = 1_000_000_000;
    duration_from_nanos(second / (fps as u64))
}

/// Where the wait for the next frame stands.
#[derive(Clone, Copy, Debug, PartialEq, Eq, Structural)]
pub enum WaitState {
    /// The wait has not begun.
    Start,
    /// The thread sleeps until little enough of the frame is left.
    Sleeping,
    /// The thread yields until the frame is over.
    Spinning,
    /// The next frame may start.
    Done,
}

/// What the thread is to do next while it waits for the next frame.
#[derive(Clone, Copy, Debug)]
pub enum WaitAction {
    /// Sleep for the given duration.
    Sleep(Duration),
    /// Yield to other threads once.
    Yield,
    /// Nothing: the wait is over.
    Proceed,
}

/// Resource to help keep the frame rate.
#[derive(Clone, Copy, Debug)]
pub struct FrameRateKeeper {
    /// How to wait for the time to start the next frame.
    pub strategy: FrameRateStrategy,
    /// The time this frame started at.
    frame_start: Instant,
    /// The desired duration of a single frame.
    frame_duration: Duration,
}

impl FrameRateKeeper {
    /// The desired duration of a single frame.
    pub closed spec fn frame_duration(&self) -> Duration {
        self.frame_duration
    }

    /// The time this frame started at.
    pub closed spec fn frame_start(&self) -> Instant {
        self.frame_start
    }

    /// How the keeper waits for the time to start the next frame.
    pub closed spec fn waits(&self) -> FrameRateStrategy {
        self.strategy
    }

    /// The time that the strategy leaves to be spent yielding rather than
    /// sleeping, in nanoseconds.
    pub open spec fn left_to_spin(&self) -> nat {
        match self.waits() {
            FrameRateStrategy::Rough { until_left } => duration_nanos(until_left),
            _ => 0,
        }
    }

    /// Create a new instance from default values.
    pub fn new() -> (k: Self)
        ensures
            k.waits() is Precise,
            duration_nanos(k.frame_duration()) == 1_000_000_000int / 144,
    {
        Self::from_config(FrameRateConfig::new())
    }

    /// Create a new instance from the given configuration; the frame starts
    /// now.
    pub fn from_config(config: FrameRateConfig) -> (k: Self)
        requires
            config.fps > 0,
        ensures
            k.waits() == config.strategy,
            duration_nanos(k.frame_duration()) == 1_000_000_000int / (config.fps as int),
    {
        let FrameRateConfig { fps, strategy } = config;
        FrameRateKeeper {
            strategy,
            frame_start: instant_now(),
            frame_duration: frame_duration_from_fps(fps),
        }
    }

    /// Set the desired fps to the given value.
    pub fn set_fps(&mut self, fps: u32)
        requires
            fps > 0,
        ensures
            duration_nanos(final(self).frame_duration()) == 1_000_000_000int / (fps as int),
            final(self).waits() == old(self).waits(),
            final(self).frame_start() == old(self).frame_start(),
    {
        self.frame_duration = frame_duration_from_fps(fps);
    }

    /// Reset the start time of this frame to now.
    pub fn reset(&mut self)
        ensures
            final(self).waits() == old(self).waits(),
            final(self).frame_duration() == old(self).frame_duration(),
    {
        self.reset_to(instant_now());
    }

    /// Let this frame start at the given moment; the strategy and the
    /// duration of a frame stay.
    pub fn reset_to(&mut self, frame_start: Instant)
        ensures
            final(self).frame_start() == frame_start,
            final(self).waits() == old(self).waits(),
            final(self).frame_duration() == old(self).frame_duration(),
    {
        self.frame_start = frame_start;
    }

    /// The moment at which this frame started.
    pub fn started_at(&self) -> (at: Instant)
        ensures
            at == self.frame_start(),
    {
        self.frame_start
    }

    /// Whether the strategy can be followed: the time that it leaves to be
    /// spent yielding is no longer than a frame.
    pub fn can_wait(&self) -> (b: bool)
        ensures
            b == (self.left_to_spin() <= duration_nanos(self.frame_duration())),
    {
        match self.strategy {
            FrameRateStrategy::Rough { until_left } => duration_as_nanos(&until_left)
                <= duration_as_nanos(&self.frame_duration),
            _ => true,
        }
    }

    /// Decide what to do next while waiting for the next frame, given where
    /// the wait stands and how much time has passed since the frame started.
    ///
    /// As fast as possible, the thread yields once. Precisely, it yields
    /// once and then for as long as the frame is not over. Otherwise it
    /// first sleeps, for as long as more of the frame is left than the
    /// strategy leaves for yielding, each time for what is left of that, and
    /// then goes on as in the precise case.
    pub fn wait_step(&self, state: WaitState, elapsed: Duration) -> (step: (WaitState, WaitAction))
        requires
            self.left_to_spin() <= duration_nanos(self.frame_duration()),
        ensures
            step.0 == self.next_state(state, elapsed),
            step.1 is Sleep <==> self.sleeps(state, elapsed),
            step.1 is Proceed <==> self.proceeds(state, elapsed),
            step.1 matches WaitAction::Sleep(d) ==> duration_nanos(d) == duration_nanos(
                self.frame_duration(),
            ) - self.left_to_spin() - duration_nanos(elapsed),
    {
        let elapsed_nanos = duration_as_nanos(&elapsed);
        let frame_nanos = duration_as_nanos(&self.frame_duration);
        match state {
            WaitState::Done => (WaitState::Done, WaitAction::Proceed),
            WaitState::Spinning => {
                if elapsed_nanos < frame_nanos {
                    (WaitState::Spinning, WaitAction::Yield)
                } else {
                    (WaitState::Done, WaitAction::Proceed)
                }
            },
            _ => {
                let left = match self.strategy {
                    FrameRateStrategy::Rough { until_left } => Some(until_left),
                    FrameRateStrategy::EqualOrSlower => Some(duration_from_nanos(0)),
                    _ => None,
                };
                match left {
                    None => match state {
                        WaitState::Start => match self.strategy {
                            FrameRateStrategy::AsFastAsPossible => (
                                WaitState::Done,
                                WaitAction::Yield,
                            ),
                            _ => (WaitState::Spinning, WaitAction::Yield),
                        },
                        _ => (WaitState::Spinning, WaitAction::Yield),
                    },
                    Some(until_left) => {
                        let sleep_for = duration_saturating_sub(self.frame_duration, until_left);
                        if elapsed_nanos < duration_as_nanos(&sleep_for) {
                            (
                                WaitState::Sleeping,
                                WaitAction::Sleep(duration_saturating_sub(sleep_for, elapsed)),
                            )
                        } else {
                            (WaitState::Spinning, WaitAction::Yield)
                        }
                    },
                }
            },
        }
    }

    /// Whether the thread sleeps next: the strategy sleeps, the wait has not
    /// come to yielding yet, and more of the frame is left than the strategy
    /// leaves for yielding.
    pub open spec fn sleeps(&self, state: WaitState, elapsed: Duration) -> bool {
        (state == WaitState::Start || state == WaitState::Sleeping) && (self.waits()
            is EqualOrSlower || self.waits() is Rough) && duration_nanos(elapsed) + self.left_to_spin()
            < duration_nanos(self.frame_duration())
    }

    /// Whether the wait is over: it was over before, or the thread was
    /// yielding and the frame is over now.
    pub open spec fn proceeds(&self, state: WaitState, elapsed: Duration) -> bool {
        state == WaitState::Done || (state == WaitState::Spinning && duration_nanos(elapsed)
            >= duration_nanos(self.frame_duration()))
    }

    /// Where the wait stands after the next step.
    pub open spec fn next_state(&self, state: WaitState, elapsed: Duration) -> WaitState {
        match state {
            WaitState::Done => WaitState::Done,
            WaitState::Spinning => if duration_nanos(elapsed) < duration_nanos(
                self.frame_duration(),
            ) {
                WaitState::Spinning
            } else {
                WaitState::Done
            },
            _ => if self.sleeps(state, elapsed) {
                WaitState::Sleeping
            } else if state == WaitState::Start && self.waits() is AsFastAsPossible {
                WaitState::Done
            } else {
                WaitState::Spinning
            },
        }
    }
}

/// The sum of the given numbers.
pub open spec fn sum_of(s: Seq<u64>) -> nat
    decreases s.len(),
{
    if s.len() == 0 {
        0
    } else {
        sum_of(s.drop_last()) + s.last() as nat
    }
}

/// Resource for storing the durations of the last frames, in nanoseconds,
/// from which frames per second are computed.
#[derive(Debug)]
pub struct FpsValue {
    past_fps: SizedQueue<u64>,
}

impl FpsValue {
    /// The stored durations in nanoseconds, oldest first.
    pub closed spec fn view(&self) -> Seq<u64> {
        self.past_fps@
    }

    /// How many durations the store keeps.
    pub closed spec fn capacity(&self) -> usize {
        self.past_fps.capacity()
    }

    /// Create a new store that keeps the durations of the last ten frames.
    pub fn new() -> (v: Self)
        ensures
            v@ == Seq::<u64>::empty(),
            v.capacity() == 10,
    {
        FpsValue::from_queue_size(10)
    }

    /// Create a new store that keeps the durations of the last `size` frames.
    pub fn from_queue_size(size: usize) -> (v: Self)
        ensures
            v@ == Seq::<u64>::empty(),
            v.capacity() == size,
    {
        FpsValue { past_fps: SizedQueue::new(size) }
    }

    /// Store the duration of a frame; the oldest one leaves a full store.
    pub fn record(&mut self, nanoseconds: u64)
        ensures
            final(self).capacity() == old(self).capacity(),
            final(self)@ == (if old(self)@.len() == old(self).capacity() && old(self)@.len() > 0 {
                old(self)@.subrange(1, old(self)@.len() as int)
            } else {
                old(self)@
            }).push(nanoseconds),
    {
        self.past_fps.push(nanoseconds);
    }

    /// The duration of the last frame in nanoseconds, if one is stored.
    pub fn last_nanoseconds(&self) -> (n: Option<u64>)
        ensures
            n == (if self@.len() > 0 {
                Some(self@[self@.len() - 1])
            } else {
                None
            }),
    {
        match self.past_fps.newest() {
            Some(n) => Some(*n),
            None => None,
        }
    }

    /// How many durations are stored.
    pub fn count(&self) -> (n: usize)
        ensures
            n == self@.len(),
    {
        self.past_fps.len()
    }

    /// The sum of the stored durations in nanoseconds.
    pub fn total_nanoseconds(&self) -> (total: u128)
        ensures
            total == sum_of(self@),
    {
        let n = self.past_fps.len();
        let mut total: u128 = 0;
        let mut i: usize = 0;
        while i < n
            invariant
                n == self@.len(),
                i <= n,
                total == sum_of(self@.take(i as int)),
                total <= i * 0xffff_ffff_ffff_ffff,
            decreases n - i,
        {
            let item = match self.past_fps.get(i) {
                Some(x) => *x,
                None => 0,
            };
            assert(self@.take(i + 1).drop_last() =~= self@.take(i as int));
            assert(self@.take(i + 1).last() == item);
            assert((i + 1) * 0xffff_ffff_ffff_ffff == i * 0xffff_ffff_ffff_ffff
                + 0xffff_ffff_ffff_ffff) by (nonlinear_arith);
            assert(i * 0xffff_ffff_ffff_ffff <= 0xffff_ffff_ffff_ffff * 0xffff_ffff_ffff_ffff)
                by (nonlinear_arith)
                requires
                    i <= 0xffff_ffff_ffff_ffff,
            ;
            total = total + item as u128;
            i += 1;
        }
        assert(self@.take(n as int) =~= self@);
        total
    }
}

impl Default for FpsValue {
    fn default() -> (v: Self)
        ensures
            v@ == Seq::<u64>::empty(),
            v.capacity() == 10,
    {
        FpsValue::new()
    }
}

/// The system that measures the duration of frames.
#[derive(Clone, Copy, Debug, Default)]
pub struct FpsCountSystem;

/// Build the system that measures the frames per second.
pub fn build_fps_count_system() -> (system: FpsCountSystem)
    ensures
        system == FpsCountSystem,
{
    FpsCountSystem
}

impl FpsCountSystem {
    /// Store the duration of the last frame, in nanoseconds.
    pub fn run(&self, fps_value: &mut FpsValue, real_delta_duration: Duration)
        ensures
            final(fps_value).capacity() == old(fps_value).capacity(),
            final(fps_value)@ == (if old(fps_value)@.len() == old(fps_value).capacity() && old(
                fps_value,
            )@.len() > 0 {
                old(fps_value)@.subrange(1, old(fps_value)@.len() as int)
            } else {
                old(fps_value)@
            }).push((duration_nanos(real_delta_duration) % 0x1_0000_0000_0000_0000) as u64),
    {
        let frame_duration = duration_to_nanoseconds(real_delta_duration);
        fps_value.record(frame_duration);
    }
}

} // verus!
