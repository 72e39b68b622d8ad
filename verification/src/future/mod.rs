//! Futures based runtime for a `Pendulum`: what the timer, its futures and
//! streams, and its backing thread decide.

pub mod driver;
pub mod inner;
pub mod sleep;

use vstd::prelude::*;

verus! {

/// Capacity of the request channel of a `Timer` built with the defaults.
pub const DEFAULT_CHANNEL_CAPACITY: usize = 128usize;

/// Builder for configuring and constructing instances of `Timer`.
pub struct TimerBuilder<B> {
    channel_capacity: usize,
    builder: B,
}

impl<B> TimerBuilder<B> {
    pub closed spec fn spec_channel_capacity(&self) -> usize {
        self.channel_capacity
    }

    pub closed spec fn spec_pendulum_builder(&self) -> B {
        self.builder
    }

    /// Sets the `PendulumBuilder` used to construct the backing `Pendulum`.
    pub fn with_pendulum_builder(self, builder: B) -> (b: TimerBuilder<B>)
        ensures
            b.spec_pendulum_builder() == builder,
            b.spec_channel_capacity() == self.spec_channel_capacity(),
    {
        let mut this = self;
        this.builder = builder;
        this
    }

    /// Sets the channel capacity, used for communicating with the backing thread.
    pub fn with_channel_capacity(self, capacity: usize) -> (b: TimerBuilder<B>)
        ensures
            b.spec_channel_capacity() == capacity,
            b.spec_pendulum_builder() == self.spec_pendulum_builder(),
    {
        let mut this = self;
        this.channel_capacity = capacity;
        this
    }

    /// `PendulumBuilder` used to construct the backing `Pendulum`.
    pub fn pendulum_builder(&self) -> (b: &B)
        ensures
            *b == self.spec_pendulum_builder(),
    {
        &self.builder
    }

    /// Capacity of the communication channel with the backing thread.
    pub fn channel_capacity(&self) -> (c: usize)
        ensures
            c == self.spec_channel_capacity(),
    {
        self.channel_capacity
    }
}

impl<B: Default> Default for TimerBuilder<B> {
    fn default() -> (b: TimerBuilder<B>)
        ensures
            b.spec_channel_capacity() == DEFAULT_CHANNEL_CAPACITY,
            call_ensures(B::default, (), b.spec_pendulum_builder()),
    {
        TimerBuilder { channel_capacity: DEFAULT_CHANNEL_CAPACITY, builder: B::default() }
    }
}

//--------------------------------------------------------------//

/// Indicates a timeout has occurred.
pub struct TimedOut;

/// Convenience enum for mapping an `Item`/`Error` to something implementing `From<TimedOut>`.
#[derive(Debug, PartialEq, Eq)]
pub enum TimeoutStatus<T> {
    /// Original item/error was received.
    Original(T),
    /// Timeout item/error was received.
    TimedOut,
}

impl<T> From<TimedOut> for TimeoutStatus<T> {
    fn from(timed_out: TimedOut) -> (s: TimeoutStatus<T>) {
        TimeoutStatus::TimedOut
    }
}

impl<T> vstd::std_specs::convert::FromSpecImpl<TimedOut> for TimeoutStatus<T> {
    open spec fn obeys_from_spec() -> bool {
        true
    }

    open spec fn from_spec(v: TimedOut) -> TimeoutStatus<T> {
        TimeoutStatus::TimedOut
    }
}

//--------------------------------------------------------------//

/// What a `Timeout` future does when polled.
#[derive(Debug, PartialEq, Eq, Structural, Clone, Copy)]
pub enum TimeoutStep {
    /// Its sleep just finished: drop the sleep and fail with `TimedOut`.
    Expire,
    /// Its sleep finished earlier: fail with `TimedOut` again.
    Expired,
    /// Time is not up: poll the wrapped future.
    PollFuture,
}

/// The step of a `Timeout`, given whether its sleep reported ready (`None` once
/// the sleep has been dropped).
pub fn timeout_step(sleep_ready: Option<bool>) -> (s: TimeoutStep)
    ensures
        s == match sleep_ready {
            Some(true) => TimeoutStep::Expire,
            Some(false) => TimeoutStep::PollFuture,
            None => TimeoutStep::Expired,
        },
{
    match sleep_ready {
        Some(true) => TimeoutStep::Expire,
        Some(false) => TimeoutStep::PollFuture,
        None => TimeoutStep::Expired,
    }
}

/// What a stream wrapped by a timer does when polled.
#[derive(Debug, PartialEq, Eq, Structural, Clone, Copy)]
pub enum StreamStep {
    /// Its sleep is up: hand out the `TimedOut` value (as an error for a
    /// `TimeoutStream`, as an item for a `Heartbeat`).
    TimedOut {
        /// Whether the sleep starts over.
        restart: bool,
    },
    /// Poll the wrapped stream.
    PollStream {
        /// Whether the sleep starts over when the stream yields an item, so
        /// that the duration is counted from the stream's last item.
        restart_on_item: bool,
    },
}

/// The step of a `TimeoutStream`: it fails with `TimedOut` once its duration
/// has gone by since it was made, whatever the stream yielded; its sleep is
/// not started over, so it keeps failing.
pub fn timeout_stream_step(sleep_ready: bool) -> (s: StreamStep)
    ensures
        s == if sleep_ready {
            StreamStep::TimedOut { restart: false }
        } else {
            StreamStep::PollStream { restart_on_item: false }
        },
{
    if sleep_ready {
        StreamStep::TimedOut { restart: false }
    } else {
        StreamStep::PollStream { restart_on_item: false }
    }
}

/// The step of a `Heartbeat`: it yields a `TimedOut` item only when the
/// duration went by with no item from the stream. Each time its sleep is up it
/// yields one and starts the sleep over, and each item of the stream starts the
/// sleep over too. A `SleepStream` steps the same way with no inner stream: it
/// yields `()` when its sleep is up and is not ready otherwise.
pub fn heartbeat_step(sleep_ready: bool) -> (s: StreamStep)
    ensures
        s == if sleep_ready {
            StreamStep::TimedOut { restart: true }
        } else {
            StreamStep::PollStream { restart_on_item: true }
        },
{
    if sleep_ready {
        StreamStep::TimedOut { restart: true }
    } else {
        StreamStep::PollStream { restart_on_item: true }
    }
}

} // verus!
