use pendulum::future::{
    heartbeat_step, timeout_step, timeout_stream_step, StreamStep, TimedOut, TimeoutStatus, TimeoutStep,
    TimerBuilder, DEFAULT_CHANNEL_CAPACITY,
};

#[derive(Debug, Default, PartialEq, Eq)]
struct WheelConfig {
    slots: usize,
}

#[test]
fn default_builder_has_channel_capacity_128() {
    let builder: TimerBuilder<WheelConfig> = TimerBuilder::default();
    assert_eq!(builder.channel_capacity(), 128);
    assert_eq!(DEFAULT_CHANNEL_CAPACITY, 128);
    assert_eq!(*builder.pendulum_builder(), WheelConfig { slots: 0 });
}

#[test]
fn builder_setters_are_read_back() {
    let builder: TimerBuilder<WheelConfig> = TimerBuilder::default()
        .with_channel_capacity(7)
        .with_pendulum_builder(WheelConfig { slots: 11 });
    assert_eq!(builder.channel_capacity(), 7);
    assert_eq!(*builder.pendulum_builder(), WheelConfig { slots: 11 });
    let builder = builder.with_channel_capacity(0);
    assert_eq!(builder.channel_capacity(), 0);
    assert_eq!(builder.pendulum_builder().slots, 11);
}

#[test]
fn timed_out_converts_to_timeout_status() {
    let s: TimeoutStatus<u8> = TimedOut.into();
    assert_eq!(s, TimeoutStatus::TimedOut);
    assert_ne!(s, TimeoutStatus::Original(3));
}

#[test]
fn timeout_steps() {
    assert_eq!(timeout_step(Some(true)), TimeoutStep::Expire);
    assert_eq!(timeout_step(Some(false)), TimeoutStep::PollFuture);
    assert_eq!(timeout_step(None), TimeoutStep::Expired);
}

#[test]
fn stream_steps_restart_only_for_heartbeat() {
    assert_eq!(timeout_stream_step(true), StreamStep::TimedOut { restart: false });
    assert_eq!(timeout_stream_step(false), StreamStep::PollStream { restart_on_item: false });
    assert_eq!(heartbeat_step(true), StreamStep::TimedOut { restart: true });
    assert_eq!(heartbeat_step(false), StreamStep::PollStream { restart_on_item: true });
}
