//! What the backing thread of a `Timer` decides: how many times to tick its
//! pendulum, how to schedule a create request, which token a delete request
//! cancels, what to do with an expired timeout, and how long to park.
//!
//! Each timeout in the pendulum carries the mapping it was created for and an
//! id handed out by the driver; the driver's table holds, for each mapping, the
//! token and id of its one live timeout, so that a delete never cancels a
//! timeout that already fired.
//!
//! All times are nanoseconds; instants are measured from the timer's own
//! starting instant. The thread itself (reading the clock, driving the
//! pendulum, notifying tasks, parking) stays with the caller.

use crate::pendulum::Token;
use std::collections::HashMap;
use vstd::prelude::*;

verus! {

broadcast use vstd::std_specs::hash::group_hash_axioms;

/// The largest number of nanoseconds a `std::time::Duration` can hold.
pub const MAX_DURATION_NANOS: u128 = 18446744073709551615999999999u128;

/// Time from `from` to `to`, or zero when `to` is earlier (as `Instant::duration_since` gives it).
pub open spec fn elapsed(from: u128, to: u128) -> int {
    if to >= from { to - from } else { 0 }
}

/// The time from one reading to a later one is their difference, and no time
/// passes towards an earlier reading.
pub proof fn lemma_elapsed_is_the_difference(from: u128, to: u128)
    ensures
        elapsed(from, to) >= 0,
        from <= to ==> from + elapsed(from, to) == to,
        to < from ==> elapsed(from, to) == 0,
        elapsed(from, to) <= to,
{
}

/// Split nanoseconds into whole seconds and the nanoseconds below a second, as
/// `Duration::new` takes them; `None` when they are more than a `Duration` holds.
pub fn duration_parts(nanos: u128) -> (parts: Option<(u64, u32)>)
    ensures
        parts is Some <==> nanos <= MAX_DURATION_NANOS,
        parts matches Some((secs, sub)) ==> secs * 1_000_000_000 + sub == nanos && sub < 1_000_000_000,
{
    let secs = nanos / 1_000_000_000u128;
    let sub = nanos % 1_000_000_000u128;
    if secs > 18446744073709551615u128 {
        None
    } else {
        Some((secs as u64, sub as u32))
    }
}

/// The pendulum is ticked once per tick duration, never early: if the ticks
/// handed out since the driver started at `start` number `total`, with
/// `leftover` carried at the last reading `last` (so `total * tick + leftover ==
/// last - start`, as `new` sets up with `total == 0`), then after `advance` at
/// `now` the ticks number exactly `(now - start) / tick`, and the same relation
/// holds again at `now`.
pub proof fn lemma_ticks_track_elapsed_time(start: int, last: int, leftover: int, total: int, tick: int, now: int)
    requires
        tick > 0,
        start <= last <= now,
        0 <= leftover < tick,
        total >= 0,
        total * tick + leftover == last - start,
    ensures
        total + (now - last + leftover) / tick == (now - start) / tick,
        (total + (now - last + leftover) / tick) * tick + (now - last + leftover) % tick == now - start,
        (now - last + leftover) % tick == (now - start) % tick,
{
    let owed = now - last + leftover;
    vstd::arithmetic::div_mod::lemma_fundamental_div_mod(owed, tick);
    vstd::arithmetic::div_mod::lemma_mod_bound(owed, tick);
    assert((total + owed / tick) * tick == total * tick + (owed / tick) * tick) by (nonlinear_arith);
    assert(tick * (owed / tick) == (owed / tick) * tick) by (nonlinear_arith);
    vstd::arithmetic::div_mod::lemma_fundamental_div_mod_converse(now - start, tick, total + owed / tick, owed % tick);
}

/// Forgetting a mapping undoes recording it: after `record(mapping, token, id)`,
/// `forget(mapping)` hands back `token` and leaves the table as `forget` alone
/// would have left it.
pub proof fn lemma_forget_undoes_record(table: Map<usize, (Token, u64)>, mapping: usize, token: Token, id: u64)
    ensures
        table.insert(mapping, (token, id)).contains_key(mapping),
        table.insert(mapping, (token, id))[mapping].0 == token,
        table.insert(mapping, (token, id)).remove(mapping) == table.remove(mapping),
{
    assert(table.insert(mapping, (token, id)).remove(mapping) =~= table.remove(mapping));
}

fn elapsed_exec(from: u128, to: u128) -> (d: u128)
    ensures
        d == elapsed(from, to),
{
    if to >= from { to - from } else { 0 }
}

/// The id handed out after `id`.
pub open spec fn next_id(id: u64) -> u64 {
    if id == u64::MAX { 0 } else { (id + 1) as u64 }
}

/// The smaller of two times.
pub open spec fn min_nanos(a: int, b: int) -> int {
    if a <= b { a } else { b }
}

/// Cutting a timeout to the pendulum's maximum changes it only when it is above
/// the maximum: the cut is at most both, and is one of them, so a timeout that
/// fits is kept whole and one that does not becomes the maximum.
pub proof fn lemma_cut_keeps_timeouts_that_fit(a: int, b: int)
    ensures
        min_nanos(a, b) <= a,
        min_nanos(a, b) <= b,
        min_nanos(a, b) == a || min_nanos(a, b) == b,
        a <= b ==> min_nanos(a, b) == a,
        a > b ==> min_nanos(a, b) == b,
{
}

/// Ids are handed out one after another: the next id differs from the last,
/// and is one more unless the last was the largest.
pub proof fn lemma_ids_count_up(id: u64)
    ensures
        next_id(id) != id,
        id < u64::MAX ==> next_id(id) == id + 1,
        id == u64::MAX ==> next_id(id) == 0,
{
}

/// What to do with a create request.
#[derive(Debug, PartialEq, Eq, Structural, Clone, Copy)]
pub enum CreateAction {
    /// Its whole duration went by before it was scheduled: notify its task now.
    NotifyNow,
    /// Insert it into the pendulum with this timeout, carrying this id.
    Insert { timeout: u128, id: u64 },
}

/// What to do with a timeout that the pendulum reports expired.
#[derive(Debug, PartialEq, Eq, Structural, Clone, Copy)]
pub enum ExpireAction {
    /// Its duration is over: notify its task.
    Notify,
    /// It expired early: insert it again with this timeout, under the same id;
    /// `record` tells whether it is its mapping's live timeout, whose new token
    /// is to be recorded.
    Requeue { timeout: u128, record: bool },
}

/// The backing thread's own state.
///
/// Beside what it runs on, it keeps (as ghost state) the reading it started at
/// and the number of ticks it has handed out, to state that the pendulum is
/// ticked once per tick duration.
pub struct TimerDriver {
    tick_duration: u128,
    max_timeout: u128,
    last_tick_time: u128,
    leftover_tick: u128,
    mapping_table: HashMap<usize, (Token, u64)>,
    next_id: u64,
    start_time: Ghost<int>,
    ticks_given: Ghost<int>,
}

impl TimerDriver {
    pub closed spec fn tick(&self) -> u128 {
        self.tick_duration
    }

    /// The longest timeout the pendulum takes.
    pub closed spec fn max_timeout(&self) -> u128 {
        self.max_timeout
    }

    /// When the clock was last read for ticking.
    pub closed spec fn last_tick(&self) -> u128 {
        self.last_tick_time
    }

    /// Time carried over that was too short for a whole tick.
    pub closed spec fn leftover(&self) -> u128 {
        self.leftover_tick
    }

    /// The pendulum token and id of the live timeout of each mapping.
    pub closed spec fn table(&self) -> Map<usize, (Token, u64)> {
        self.mapping_table@
    }

    /// The id the next inserted timeout gets.
    pub closed spec fn id(&self) -> u64 {
        self.next_id
    }

    /// The reading the driver started at.
    pub closed spec fn start(&self) -> int {
        self.start_time@
    }

    /// The ticks handed out since the start.
    pub closed spec fn ticked(&self) -> int {
        self.ticks_given@
    }

    /// The driver's invariant: ticks handed out plus the leftover account for
    /// all the time from the start to the last reading.
    pub open spec fn wf(&self) -> bool {
        &&& 0 < self.tick() <= MAX_DURATION_NANOS
        &&& self.max_timeout() <= MAX_DURATION_NANOS
        &&& self.leftover() < self.tick()
        &&& self.last_tick() <= MAX_DURATION_NANOS
        &&& 0 <= self.start() <= self.last_tick()
        &&& self.ticked() >= 0
        &&& self.ticked() * self.tick() + self.leftover() == self.last_tick() - self.start()
    }

    /// Time owed to the pendulum at `now`: since the last reading, plus the leftover.
    pub open spec fn owed(&self, now: u128) -> int {
        elapsed(self.last_tick(), now) + self.leftover()
    }

    /// Whether `id` is the live timeout of `mapping`.
    pub open spec fn is_live(&self, mapping: usize, id: u64) -> bool {
        self.table().contains_key(mapping) && self.table()[mapping].1 == id
    }

    /// Start driving a pendulum whose tick is `tick_duration` and whose maximum
    /// timeout is `max_timeout`, at `now`.
    pub fn new(tick_duration: u128, max_timeout: u128, now: u128, capacity: usize) -> (d: TimerDriver)
        requires
            0 < tick_duration <= MAX_DURATION_NANOS,
            max_timeout <= MAX_DURATION_NANOS,
            now <= MAX_DURATION_NANOS,
        ensures
            d.wf(),
            d.tick() == tick_duration,
            d.max_timeout() == max_timeout,
            d.last_tick() == now,
            d.leftover() == 0,
            d.start() == now,
            d.ticked() == 0,
            d.table() == Map::<usize, (Token, u64)>::empty(),
            d.id() == 0,
    {
        TimerDriver {
            tick_duration: tick_duration,
            max_timeout: max_timeout,
            last_tick_time: now,
            leftover_tick: 0,
            mapping_table: HashMap::with_capacity(capacity),
            next_id: 0,
            start_time: Ghost(now as int),
            ticks_given: Ghost(0int),
        }
    }

    /// Tick the pendulum as much as we can at `now`: returns how many whole
    /// ticks the time owed holds; the rest is carried to the next reading.
    ///
    /// Over every call, the ticks handed out since the start number exactly
    /// the whole tick durations from the start to the latest reading.
    pub fn advance(&mut self, now: u128) -> (ticks: u128)
        requires
            old(self).wf(),
            now <= MAX_DURATION_NANOS,
        ensures
            final(self).wf(),
            final(self).tick() == old(self).tick(),
            final(self).max_timeout() == old(self).max_timeout(),
            final(self).table() == old(self).table(),
            final(self).id() == old(self).id(),
            final(self).start() == old(self).start(),
            ticks == old(self).owed(now) / (old(self).tick() as int),
            final(self).leftover() == old(self).owed(now) % (old(self).tick() as int),
            final(self).last_tick() == if now >= old(self).last_tick() { now } else { old(self).last_tick() },
            final(self).ticked() == old(self).ticked() + ticks,
            final(self).ticked() == (final(self).last_tick() - final(self).start()) / (final(self).tick() as int),
            now >= old(self).last_tick() ==> final(self).ticked() == (now - old(self).start()) / (old(
                self,
            ).tick() as int),
    {
        let ghost start = self.start();
        let ghost last = self.last_tick() as int;
        let ghost lo = self.leftover() as int;
        let ghost total = self.ticked();
        let ghost tick = self.tick() as int;
        let owed = elapsed_exec(self.last_tick_time, now) + self.leftover_tick;
        let ticks = owed / self.tick_duration;
        self.leftover_tick = owed % self.tick_duration;
        if now >= self.last_tick_time {
            proof {
                lemma_ticks_track_elapsed_time(start, last, lo, total, tick, now as int);
            }
            self.last_tick_time = now;
        } else {
            proof {
                vstd::arithmetic::div_mod::lemma_fundamental_div_mod_converse(lo, tick, 0, lo);
            }
        }
        proof {
            self.ticks_given@ = total + ticks;
            vstd::arithmetic::div_mod::lemma_fundamental_div_mod_converse(
                self.last_tick() - start,
                tick,
                self.ticked(),
                self.leftover() as int,
            );
        }
        ticks
    }

    /// Handle a create request for `mapping` at `now`. Returns the token of the
    /// mapping's earlier timeout, to be removed from the pendulum (the new
    /// request replaces it), and what to do with the request.
    ///
    /// What remains of its duration after the time it took to reach the thread
    /// is inserted, plus the time owed to the pendulum since its last tick, so
    /// that the request gets no "free" ticks; the timeout is cut to the
    /// pendulum's maximum (a timeout that fires early is put back by `expire`).
    pub fn on_create(&mut self, now: u128, mapping: usize, started: u128, duration: u128) -> (r: (
        Option<Token>,
        CreateAction,
    ))
        requires
            old(self).wf(),
            now <= MAX_DURATION_NANOS,
            duration <= MAX_DURATION_NANOS,
        ensures
            final(self).wf(),
            final(self).tick() == old(self).tick(),
            final(self).max_timeout() == old(self).max_timeout(),
            final(self).last_tick() == old(self).last_tick(),
            final(self).leftover() == old(self).leftover(),
            final(self).start() == old(self).start(),
            final(self).ticked() == old(self).ticked(),
            final(self).table() == old(self).table().remove(mapping),
            r.0 == if old(self).table().contains_key(mapping) {
                Some(old(self).table()[mapping].0)
            } else {
                None
            },
            duration <= elapsed(started, now) ==> r.1 == CreateAction::NotifyNow && final(self).id() == old(
                self,
            ).id(),
            duration > elapsed(started, now) ==> r.1 == (CreateAction::Insert {
                timeout: min_nanos(
                    duration - elapsed(started, now) + old(self).owed(now),
                    old(self).max_timeout() as int,
                ) as u128,
                id: old(self).id(),
            }) && final(self).id() == next_id(old(self).id()),
            r.1 matches CreateAction::Insert { timeout, .. } ==> {
                let wanted = duration - elapsed(started, now) + old(self).owed(now);
                &&& timeout <= old(self).max_timeout()
                &&& timeout <= wanted
                &&& wanted <= old(self).max_timeout() ==> timeout == wanted
                &&& wanted > old(self).max_timeout() ==> timeout == old(self).max_timeout()
            },
    {
        let cancel = match self.mapping_table.remove(&mapping) {
            Some(entry) => Some(entry.0),
            None => None,
        };
        let time_to_schedule = elapsed_exec(started, now);
        let real_timeout: u128 = if duration >= time_to_schedule { duration - time_to_schedule } else { 0 };
        if real_timeout == 0 {
            (cancel, CreateAction::NotifyNow)
        } else {
            let owed = elapsed_exec(self.last_tick_time, now) + self.leftover_tick;
            let wanted = real_timeout + owed;
            let timeout = if wanted <= self.max_timeout { wanted } else { self.max_timeout };
            let id = self.next_id;
            self.next_id = if id == u64::MAX { 0 } else { id + 1 };
            (cancel, CreateAction::Insert { timeout: timeout, id: id })
        }
    }

    /// Remember the pendulum token and id of a mapping's live timeout.
    pub fn record(&mut self, mapping: usize, token: Token, id: u64)
        ensures
            final(self).wf() == old(self).wf(),
            final(self).tick() == old(self).tick(),
            final(self).max_timeout() == old(self).max_timeout(),
            final(self).last_tick() == old(self).last_tick(),
            final(self).leftover() == old(self).leftover(),
            final(self).start() == old(self).start(),
            final(self).ticked() == old(self).ticked(),
            final(self).id() == old(self).id(),
            final(self).table() == old(self).table().insert(mapping, (token, id)),
    {
        self.mapping_table.insert(mapping, (token, id));
    }

    /// Forget a mapping: returns the token to remove from the pendulum, if one was held.
    pub fn forget(&mut self, mapping: usize) -> (token: Option<Token>)
        ensures
            final(self).wf() == old(self).wf(),
            final(self).tick() == old(self).tick(),
            final(self).max_timeout() == old(self).max_timeout(),
            final(self).last_tick() == old(self).last_tick(),
            final(self).leftover() == old(self).leftover(),
            final(self).start() == old(self).start(),
            final(self).ticked() == old(self).ticked(),
            final(self).id() == old(self).id(),
            final(self).table() == old(self).table().remove(mapping),
            token == if old(self).table().contains_key(mapping) {
                Some(old(self).table()[mapping].0)
            } else {
                None
            },
    {
        match self.mapping_table.remove(&mapping) {
            Some(entry) => Some(entry.0),
            None => None,
        }
    }

    /// Decide what to do at `now` with an expired timeout of `duration`, started
    /// at `started`, created for `mapping` under `id`.
    ///
    /// A timeout that fired before its duration went by is put back (cut to the
    /// pendulum's maximum). Otherwise its task is notified, and if it was its
    /// mapping's live timeout the mapping is forgotten, so that no later delete
    /// hands its (now stale) token to the pendulum.
    pub fn expire(&mut self, now: u128, mapping: usize, id: u64, started: u128, duration: u128) -> (a: ExpireAction)
        ensures
            final(self).wf() == old(self).wf(),
            final(self).tick() == old(self).tick(),
            final(self).max_timeout() == old(self).max_timeout(),
            final(self).last_tick() == old(self).last_tick(),
            final(self).leftover() == old(self).leftover(),
            final(self).start() == old(self).start(),
            final(self).ticked() == old(self).ticked(),
            final(self).id() == old(self).id(),
            elapsed(started, now) < duration ==> a == (ExpireAction::Requeue {
                timeout: min_nanos(duration - elapsed(started, now), old(self).max_timeout() as int) as u128,
                record: old(self).is_live(mapping, id),
            }) && final(self).table() == old(self).table(),
            elapsed(started, now) >= duration ==> a == ExpireAction::Notify,
            a matches ExpireAction::Requeue { timeout, .. } ==> {
                let remaining = duration - elapsed(started, now);
                &&& timeout <= old(self).max_timeout()
                &&& timeout <= remaining
                &&& remaining <= old(self).max_timeout() ==> timeout == remaining
                &&& remaining > old(self).max_timeout() ==> timeout == old(self).max_timeout()
            },
            a == ExpireAction::Notify && old(self).is_live(mapping, id) ==> final(self).table() == old(
                self,
            ).table().remove(mapping),
            a == ExpireAction::Notify && !old(self).is_live(mapping, id) ==> final(self).table() == old(
                self,
            ).table(),
            a == ExpireAction::Notify ==> !final(self).is_live(mapping, id),
    {
        let live = match self.mapping_table.get(&mapping) {
            Some(entry) => entry.1 == id,
            None => false,
        };
        let total_time = elapsed_exec(started, now);
        if total_time < duration {
            let remaining = duration - total_time;
            let timeout = if remaining <= self.max_timeout { remaining } else { self.max_timeout };
            ExpireAction::Requeue { timeout: timeout, record: live }
        } else {
            if live {
                self.mapping_table.remove(&mapping);
            }
            ExpireAction::Notify
        }
    }

    /// How long to park until the next tick is due.
    pub fn park_duration(&self) -> (d: u128)
        requires
            self.wf(),
        ensures
            d == self.tick() - self.leftover(),
            0 < d <= self.tick(),
    {
        self.tick_duration - self.leftover_tick
    }
}

} // verus!
