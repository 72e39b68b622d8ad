use futures::future::{self, Future};
use futures::task::{self, Task};
use pendulum::create_token;
use pendulum::future::driver::{duration_parts, CreateAction, ExpireAction, TimerDriver, MAX_DURATION_NANOS};
use pendulum::future::inner::{InnerTimer, TimeoutRequest};
use pendulum::future::sleep::{SleepCore, SleepPoll};

fn some_task() -> Task {
    future::lazy(|| Ok::<Task, ()>(task::current())).wait().unwrap()
}

#[test]
fn sleep_is_over_once_its_duration_has_passed() {
    let sleep = SleepCore::new(0, 50, 100);
    assert!(!sleep.is_over(149));
    assert!(sleep.is_over(150));
    assert!(sleep.is_over(400));
    assert!(!sleep.is_over(10));
    let zero = SleepCore::new(0, 0, 100);
    assert!(zero.is_over(100));
    assert!(zero.is_over(10));
}

#[test]
fn sleep_sends_one_create_request() {
    let mut inner = InnerTimer::new(1, 4);
    let mut sleep = SleepCore::new(0, 50, 100);
    assert!(sleep.sent_task().is_none());
    assert_eq!(sleep.request(&mut inner, false, some_task(), some_task()), SleepPoll::Sent);
    assert!(sleep.sent_task().is_some());
    // Same task still current: nothing more to send.
    assert_eq!(sleep.request(&mut inner, true, some_task(), some_task()), SleepPoll::Waiting);
    // Another task polls: send again.
    assert_eq!(sleep.request(&mut inner, false, some_task(), some_task()), SleepPoll::Sent);
    for _ in 0..2 {
        match inner.try_pop_request() {
            Some(TimeoutRequest::Create(c)) => {
                assert_eq!((c.mapping, c.duration, c.started), (0, 50, 100));
            }
            _ => panic!("expected a create request"),
        }
    }
    assert!(inner.try_pop_request().is_none());
}

#[test]
fn sleep_retries_when_channel_is_full() {
    let mut inner = InnerTimer::new(1, 0);
    let mut sleep = SleepCore::new(0, 50, 0);
    assert_eq!(sleep.request(&mut inner, false, some_task(), some_task()), SleepPoll::Retry);
    assert!(sleep.sent_task().is_none());
    // With a request already sent, a full channel keeps the stored task.
    let mut inner = InnerTimer::new(1, 1);
    assert_eq!(sleep.request(&mut inner, false, some_task(), some_task()), SleepPoll::Sent);
    assert_eq!(sleep.request(&mut inner, false, some_task(), some_task()), SleepPoll::Retry);
    assert!(sleep.sent_task().is_some());
}

#[test]
fn restart_forgets_sent_request() {
    let mut inner = InnerTimer::new(1, 4);
    let mut sleep = SleepCore::new(3, 50, 0);
    assert_eq!(sleep.request(&mut inner, false, some_task(), some_task()), SleepPoll::Sent);
    sleep.restart(60);
    assert!(sleep.sent_task().is_none());
    assert_eq!(sleep.mapping(), 3);
    assert!(!sleep.is_over(100));
    assert_eq!(sleep.request(&mut inner, true, some_task(), some_task()), SleepPoll::Sent);
    assert!(sleep.is_over(110));
}

#[test]
fn release_without_request_returns_mapping() {
    let mut inner = InnerTimer::new(1, 4);
    let mapping = inner.try_retrieve_mapping().unwrap();
    let sleep = SleepCore::new(mapping, 50, 0);
    assert!(!sleep.release(&mut inner));
    assert!(inner.try_pop_request().is_none());
    assert_eq!(inner.try_retrieve_mapping(), Some(0));
}

#[test]
fn release_after_request_sends_delete() {
    let mut inner = InnerTimer::new(1, 2);
    let mapping = inner.try_retrieve_mapping().unwrap();
    let mut sleep = SleepCore::new(mapping, 50, 0);
    assert_eq!(sleep.request(&mut inner, false, some_task(), some_task()), SleepPoll::Sent);
    assert!(sleep.release(&mut inner));
    assert!(matches!(inner.try_pop_request(), Some(TimeoutRequest::Create(_))));
    match inner.try_pop_request() {
        Some(TimeoutRequest::Delete(d)) => assert_eq!(d.mapping, 0),
        _ => panic!("expected a delete request"),
    }
    assert_eq!(inner.try_retrieve_mapping(), None);
}

#[test]
fn release_with_full_channel_returns_mapping() {
    let mut inner = InnerTimer::new(1, 1);
    let mapping = inner.try_retrieve_mapping().unwrap();
    let mut sleep = SleepCore::new(mapping, 50, 0);
    assert_eq!(sleep.request(&mut inner, false, some_task(), some_task()), SleepPoll::Sent);
    assert!(!sleep.release(&mut inner));
    assert_eq!(inner.try_retrieve_mapping(), Some(0));
}

#[test]
fn driver_ticks_once_per_tick_duration() {
    let mut d = TimerDriver::new(100, 1_000_000, 0, 8);
    assert_eq!(d.advance(50), 0);
    assert_eq!(d.park_duration(), 50);
    assert_eq!(d.advance(250), 2);
    assert_eq!(d.park_duration(), 50);
    assert_eq!(d.advance(299), 0);
    assert_eq!(d.advance(300), 1);
    assert_eq!(d.park_duration(), 100);
    // 3 ticks by time 300, as 300 / 100.
    assert_eq!(d.advance(1_000), 7);
    // A clock reading before the last one counts as no time.
    assert_eq!(d.advance(900), 0);
    assert_eq!(d.advance(1_050), 0);
    assert_eq!(d.advance(1_100), 1);
}

#[test]
fn driver_schedules_remaining_time_plus_owed() {
    let mut d = TimerDriver::new(100, 1_000_000, 0, 8);
    assert_eq!(d.advance(130), 1);
    // Owed: 0 since the reading at 130, plus 30 left over.
    assert_eq!(d.on_create(130, 4, 100, 50), (None, CreateAction::Insert { timeout: 20 + 30, id: 0 }));
    assert_eq!(d.on_create(140, 5, 100, 50), (None, CreateAction::Insert { timeout: 10 + 40, id: 1 }));
    assert_eq!(d.on_create(150, 6, 100, 50), (None, CreateAction::NotifyNow));
    assert_eq!(d.on_create(200, 6, 100, 50), (None, CreateAction::NotifyNow));
    assert_eq!(d.on_create(130, 7, 200, 5), (None, CreateAction::Insert { timeout: 5 + 30, id: 2 }));
}

#[test]
fn driver_create_replaces_earlier_timeout() {
    let mut d = TimerDriver::new(100, 1_000_000, 0, 8);
    d.record(4, create_token(11), 0);
    assert_eq!(d.on_create(0, 4, 0, 50), (Some(create_token(11)), CreateAction::Insert { timeout: 50, id: 0 }));
    assert_eq!(d.forget(4), None);
    d.record(4, create_token(12), 0);
    assert_eq!(d.on_create(60, 4, 0, 50), (Some(create_token(12)), CreateAction::NotifyNow));
    assert_eq!(d.forget(4), None);
}

#[test]
fn driver_expires_or_requeues() {
    let mut d = TimerDriver::new(10, 1_000_000, 0, 1);
    d.record(1, create_token(3), 7);
    assert_eq!(d.expire(120, 1, 7, 100, 50), ExpireAction::Requeue { timeout: 30, record: true });
    assert_eq!(d.expire(90, 1, 7, 100, 50), ExpireAction::Requeue { timeout: 50, record: true });
    // Not the live timeout of mapping 1: put back without recording, or notified
    // with the table keeping the live one.
    assert_eq!(d.expire(120, 1, 8, 100, 50), ExpireAction::Requeue { timeout: 30, record: false });
    assert_eq!(d.expire(160, 1, 8, 100, 50), ExpireAction::Notify);
    assert_eq!(d.expire(150, 2, 7, 100, 50), ExpireAction::Notify);
    // The live one fires: notified and forgotten.
    assert_eq!(d.expire(150, 1, 7, 100, 50), ExpireAction::Notify);
    assert_eq!(d.forget(1), None);
}

#[test]
fn driver_notified_timeout_leaves_no_stale_token() {
    let mut d = TimerDriver::new(10, 1_000_000, 0, 1);
    d.record(1, create_token(3), 7);
    assert_eq!(d.expire(151, 1, 7, 100, 50), ExpireAction::Notify);
    // A later delete for the mapping has nothing to cancel.
    assert_eq!(d.forget(1), None);
}

#[test]
fn driver_mapping_table() {
    let mut d = TimerDriver::new(10, 1_000_000, 0, 4);
    assert_eq!(d.forget(1), None);
    d.record(1, create_token(9), 0);
    d.record(2, create_token(4), 1);
    d.record(1, create_token(5), 2);
    assert_eq!(d.forget(1), Some(create_token(5)));
    assert_eq!(d.forget(1), None);
    assert_eq!(d.forget(2), Some(create_token(4)));
}

#[test]
fn nanos_split_into_duration_parts() {
    assert_eq!(duration_parts(0), Some((0, 0)));
    assert_eq!(duration_parts(1_500_000_000), Some((1, 500_000_000)));
    assert_eq!(duration_parts(999_999_999), Some((0, 999_999_999)));
    assert_eq!(duration_parts(MAX_DURATION_NANOS), Some((u64::MAX, 999_999_999)));
    assert_eq!(duration_parts(MAX_DURATION_NANOS + 1), None);
    assert_eq!(std::time::Duration::MAX.as_nanos(), MAX_DURATION_NANOS);
}

#[test]
fn driver_cuts_timeouts_to_the_pendulum_maximum() {
    let mut d = TimerDriver::new(100, 60, 0, 8);
    assert_eq!(d.advance(130), 1);
    // 50 remaining plus 30 owed would be 80: cut to 60.
    assert_eq!(d.on_create(130, 4, 130, 50), (None, CreateAction::Insert { timeout: 60, id: 0 }));
    assert_eq!(d.on_create(130, 5, 130, 20), (None, CreateAction::Insert { timeout: 50, id: 1 }));
    d.record(4, create_token(1), 0);
    assert_eq!(d.expire(130, 4, 0, 130, 100), ExpireAction::Requeue { timeout: 60, record: true });
    assert_eq!(d.expire(200, 4, 0, 130, 100), ExpireAction::Requeue { timeout: 30, record: true });
}

#[test]
fn sleep_request_carries_a_task_and_stores_one() {
    let mut inner = InnerTimer::new(1, 1);
    let mut sleep = SleepCore::new(0, 50, 0);
    assert_eq!(sleep.request(&mut inner, false, some_task(), some_task()), SleepPoll::Sent);
    assert!(sleep.sent_task().is_some());
    match inner.try_pop_request() {
        Some(TimeoutRequest::Create(c)) => c.task.notify(),
        _ => panic!("expected a create request"),
    }
}
