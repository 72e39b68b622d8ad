//! The protocol of one `Sleep`: when it is over, when it asks the backing
//! thread for a timeout, and how it gives its mapping back.

use super::driver::elapsed;
use super::inner::{CreateTimeout, DeleteTimeout, InnerTimer, RequestSummary};
use futures::task::Task;
use vstd::prelude::*;

verus! {

/// What a poll that is not over decided about asking for a timeout.
#[derive(Debug, PartialEq, Eq, Structural, Clone, Copy)]
pub enum SleepPoll {
    /// A create request is already with the backing thread for the current task.
    Waiting,
    /// The channel was full: the current task should be notified to try again.
    Retry,
    /// A create request was queued: the backing thread should be unparked.
    Sent,
}

/// A `Sleep` without its handle on the timer: the mapping that guarantees its
/// slot, its duration and starting time (nanoseconds), and the task for which
/// a create request was last sent.
pub struct SleepCore {
    mapping: usize,
    duration: u128,
    started: u128,
    sent_task: Option<Task>,
}

impl SleepCore {
    pub closed spec fn spec_mapping(&self) -> usize {
        self.mapping
    }

    pub closed spec fn spec_duration(&self) -> u128 {
        self.duration
    }

    pub closed spec fn spec_started(&self) -> u128 {
        self.started
    }

    /// The task for which a create request was sent since the sleep (re)started.
    pub closed spec fn stored(&self) -> Option<Task> {
        self.sent_task
    }

    /// Whether a create request was sent since the sleep (re)started.
    pub open spec fn sent(&self) -> bool {
        self.stored() is Some
    }

    pub fn new(mapping: usize, duration: u128, started: u128) -> (s: SleepCore)
        ensures
            s.spec_mapping() == mapping,
            s.spec_duration() == duration,
            s.spec_started() == started,
            s.stored() is None,
    {
        SleepCore { mapping: mapping, duration: duration, started: started, sent_task: None }
    }

    pub fn mapping(&self) -> (m: usize)
        ensures
            m == self.spec_mapping(),
    {
        self.mapping
    }

    /// The task for which a create request was last sent.
    pub fn sent_task(&self) -> (t: Option<&Task>)
        ensures
            t is None <==> self.stored() is None,
            t matches Some(task) ==> self.stored() == Some(*task),
    {
        self.sent_task.as_ref()
    }

    /// Start the sleep over at `now`.
    pub fn restart(&mut self, now: u128)
        ensures
            final(self).spec_mapping() == old(self).spec_mapping(),
            final(self).spec_duration() == old(self).spec_duration(),
            final(self).spec_started() == now,
            final(self).stored() is None,
    {
        self.sent_task = None;
        self.started = now;
    }

    /// Whether the sleep is over at `now`: its duration has gone by since it started.
    pub fn is_over(&self, now: u128) -> (over: bool)
        ensures
            over == (elapsed(self.spec_started(), now) >= self.spec_duration()),
    {
        let waited: u128 = if now >= self.started { now - self.started } else { 0 };
        waited >= self.duration
    }

    /// Ask the backing thread for the sleep's timeout, on a poll that is not
    /// over. `stored_is_current` tells whether the stored task will be notified
    /// as the current one. `request_task` and `stored_task` are two handles on
    /// the current task (`task::current()` taken twice): the first goes with the
    /// request, the second is kept.
    ///
    /// A create request is sent when none was sent yet, or when the stored task
    /// is no longer the current one; when it goes through, the current task is
    /// stored. Otherwise the sleep is left as it was.
    pub fn request(
        &mut self,
        inner: &mut InnerTimer,
        stored_is_current: bool,
        request_task: Task,
        stored_task: Task,
    ) -> (p: SleepPoll)
        requires
            old(inner).wf(),
        ensures
            final(inner).wf(),
            final(inner).mappings() == old(inner).mappings(),
            final(inner).capacity() == old(inner).capacity(),
            ({
                let should_send = !old(self).sent() || !stored_is_current;
                let room = old(inner).requests().len() < old(inner).capacity();
                &&& !should_send ==> p == SleepPoll::Waiting
                &&& should_send && !room ==> p == SleepPoll::Retry
                &&& should_send && room ==> p == SleepPoll::Sent
            }),
            p == SleepPoll::Sent ==> {
                &&& final(self).stored() == Some(stored_task)
                &&& final(self).spec_mapping() == old(self).spec_mapping()
                &&& final(self).spec_duration() == old(self).spec_duration()
                &&& final(self).spec_started() == old(self).spec_started()
                &&& final(inner).requests() == old(inner).requests().push(
                    RequestSummary::Create {
                        mapping: old(self).spec_mapping(),
                        duration: old(self).spec_duration(),
                        started: old(self).spec_started(),
                        task: request_task,
                    },
                )
            },
            p != SleepPoll::Sent ==> *final(self) == *old(self) && final(inner).requests() == old(
                inner,
            ).requests(),
    {
        let should_send_create = match &self.sent_task {
            Some(_) => !stored_is_current,
            None => true,
        };
        if should_send_create {
            let sent = inner.try_push_create_timer(
                CreateTimeout {
                    mapping: self.mapping,
                    duration: self.duration,
                    started: self.started,
                    task: request_task,
                },
            );
            if !sent {
                SleepPoll::Retry
            } else {
                self.sent_task = Some(stored_task);
                SleepPoll::Sent
            }
        } else {
            SleepPoll::Waiting
        }
    }

    /// Give the sleep's slot back when it is dropped: returns whether the backing
    /// thread should be unparked.
    ///
    /// If a create request was sent, a delete request is queued and the backing
    /// thread returns the mapping; if the channel is full, or no create request
    /// was ever sent, the mapping goes straight back to the pool (a timer left in
    /// the pendulum is then cleaned up lazily).
    pub fn release(&self, inner: &mut InnerTimer) -> (unpark: bool)
        requires
            old(inner).wf(),
        ensures
            final(inner).wf(),
            final(inner).capacity() == old(inner).capacity(),
            unpark == (self.sent() && old(inner).requests().len() < old(inner).capacity()),
            unpark ==> final(inner).requests() == old(inner).requests().push(
                RequestSummary::Delete { mapping: self.spec_mapping() },
            ) && final(inner).mappings() == old(inner).mappings(),
            !unpark ==> final(inner).requests() == old(inner).requests() && final(inner).mappings()
                == old(inner).mappings().push(self.spec_mapping()),
    {
        if self.sent_task.is_some() {
            let sent = inner.try_push_delete_timer(DeleteTimeout { mapping: self.mapping });
            if !sent {
                inner.return_mapping(self.mapping);
                false
            } else {
                true
            }
        } else {
            inner.return_mapping(self.mapping);
            false
        }
    }
}

} // verus!
