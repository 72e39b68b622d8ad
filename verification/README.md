# pendulum

Data structures and runtimes for timer management, with the decision logic of
the futures based timer runtime verified.

- `src/error.rs`: `PendulumError`, `PendulumErrorKind`, `PendulumResult`.
- `src/pendulum.rs`: `Token`, and the `Pendulum` and `PendulumBuilder` traits
  that timer wheels implement.
- `src/future/mod.rs`: `TimerBuilder`, `TimedOut`, `TimeoutStatus`, and the
  steps of the `Timeout`, `TimeoutStream`, `Heartbeat` and `SleepStream` wrappers.
- `src/future/inner.rs`: the mapping pool and the bounded request channel that
  clients share with the backing thread (on `crossbeam`'s `SegQueue`), and the
  validation of a new request.
- `src/future/sleep.rs`: the protocol of one sleep (when it is over, when it
  sends a create request, how it gives its slot back).
- `src/future/driver.rs`: the backing thread's decisions (ticking, scheduling,
  cancelling, expiring, parking). Times are nanoseconds.
- `app/`: the `Timer` handle and its futures and streams (`futures` 0.1), the
  backing thread, locking and clock reading.
