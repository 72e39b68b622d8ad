//! State shared between the clients of a `Timer` and its backing thread: the
//! pool of mappings (each one a guaranteed slot in the pendulum) and the
//! bounded channel of create and delete requests.

use crate::error::{PendulumError, PendulumErrorKind, PendulumResult};
use crossbeam::sync::SegQueue;
use futures::task::Task;
use vstd::prelude::*;

verus! {

/// The lock-free queue of `crossbeam`, used here as a FIFO queue.
#[verifier::external_type_specification]
#[verifier::external_body]
#[verifier::reject_recursive_types(T)]
pub struct ExSegQueue<T>(SegQueue<T>);

/// A handle to a `futures` task, carried through the library and never inspected.
#[verifier::external_type_specification]
#[verifier::external_body]
pub struct ExTask(Task);

/// What a queue of mappings holds, front first.
pub uninterp spec fn mapping_queue_contents(queue: SegQueue<usize>) -> Seq<usize>;

/// What a queue of requests holds, front first, each request by its summary
/// (which keeps the task of a create request).
pub uninterp spec fn request_queue_contents(queue: SegQueue<TimeoutRequest>) -> Seq<RequestSummary>;

/// `SegQueue::new` for mappings: the new queue is empty.
#[verifier::external_body]
fn new_mapping_queue() -> (queue: SegQueue<usize>)
    ensures
        mapping_queue_contents(queue) == Seq::<usize>::empty(),
{
    SegQueue::new()
}

/// `SegQueue::push` for mappings: the mapping is added at the back.
#[verifier::external_body]
fn push_mapping(queue: &mut SegQueue<usize>, mapping: usize)
    ensures
        mapping_queue_contents(*final(queue)) == mapping_queue_contents(*old(queue)).push(mapping),
{
    queue.push(mapping)
}

/// `SegQueue::try_pop` for mappings: the front mapping is taken off, or `None`
/// when the queue is empty (the queue is used by one holder at a time here).
#[verifier::external_body]
fn pop_mapping(queue: &mut SegQueue<usize>) -> (popped: Option<usize>)
    ensures
        match popped {
            Some(m) => {
                &&& mapping_queue_contents(*old(queue)).len() > 0
                &&& m == mapping_queue_contents(*old(queue))[0]
                &&& mapping_queue_contents(*final(queue)) == mapping_queue_contents(*old(queue)).drop_first()
            },
            None => {
                &&& mapping_queue_contents(*old(queue)).len() == 0
                &&& mapping_queue_contents(*final(queue)) == mapping_queue_contents(*old(queue))
            },
        },
{
    queue.try_pop()
}

/// `SegQueue::new` for requests: the new queue is empty.
#[verifier::external_body]
fn new_request_queue() -> (queue: SegQueue<TimeoutRequest>)
    ensures
        request_queue_contents(queue) == Seq::<RequestSummary>::empty(),
{
    SegQueue::new()
}

/// `SegQueue::push` for requests: the request is added at the back.
#[verifier::external_body]
fn push_request(queue: &mut SegQueue<TimeoutRequest>, request: TimeoutRequest)
    ensures
        request_queue_contents(*final(queue)) == request_queue_contents(*old(queue)).push(request.summary()),
{
    queue.push(request)
}

/// `SegQueue::try_pop` for requests: the front request is taken off, or `None`
/// when the queue is empty.
#[verifier::external_body]
fn pop_request(queue: &mut SegQueue<TimeoutRequest>) -> (popped: Option<TimeoutRequest>)
    ensures
        match popped {
            Some(r) => {
                &&& request_queue_contents(*old(queue)).len() > 0
                &&& r.summary() == request_queue_contents(*old(queue))[0]
                &&& request_queue_contents(*final(queue)) == request_queue_contents(*old(queue)).drop_first()
            },
            None => {
                &&& request_queue_contents(*old(queue)).len() == 0
                &&& request_queue_contents(*final(queue)) == request_queue_contents(*old(queue))
            },
        },
{
    queue.try_pop()
}

//--------------------------------------------------------------//

/// A request from a client to the backing thread.
pub enum TimeoutRequest {
    Create(CreateTimeout),
    Delete(DeleteTimeout),
}

/// Request to schedule a timeout. Times are in nanoseconds; `started` is measured
/// from the timer's own starting instant.
pub struct CreateTimeout {
    pub mapping: usize,
    pub duration: u128,
    pub started: u128,
    pub task: Task,
}

/// Request to drop the timeout held under a mapping.
pub struct DeleteTimeout {
    pub mapping: usize,
}

/// A request as a value of the library: what it holds, the task of a create
/// request taken as it is.
pub enum RequestSummary {
    Create { mapping: usize, duration: u128, started: u128, task: Task },
    Delete { mapping: usize },
}

impl TimeoutRequest {
    pub open spec fn summary(self) -> RequestSummary {
        match self {
            TimeoutRequest::Create(c) => RequestSummary::Create {
                mapping: c.mapping,
                duration: c.duration,
                started: c.started,
                task: c.task,
            },
            TimeoutRequest::Delete(d) => RequestSummary::Delete { mapping: d.mapping },
        }
    }
}

//--------------------------------------------------------------//

/// The mapping pool and the request channel of a `Timer`.
///
/// A client that holds a mapping is guaranteed an entry in the pendulum; the
/// backing thread associates each mapping with the pendulum's own token. The
/// channel holds at most `channel_capacity` requests, creates and deletes in
/// the order they were sent.
pub struct InnerTimer {
    mapping_queue: SegQueue<usize>,
    request_queue: SegQueue<TimeoutRequest>,
    request_count: usize,
    channel_capacity: usize,
}

impl InnerTimer {
    /// Mappings available to clients, front first.
    pub closed spec fn mappings(&self) -> Seq<usize> {
        mapping_queue_contents(self.mapping_queue)
    }

    /// Requests waiting for the backing thread, front first.
    pub closed spec fn requests(&self) -> Seq<RequestSummary> {
        request_queue_contents(self.request_queue)
    }

    pub closed spec fn capacity(&self) -> usize {
        self.channel_capacity
    }

    /// The channel never holds more requests than its capacity, and the count
    /// kept beside it is exact.
    pub closed spec fn wf(&self) -> bool {
        &&& self.request_count == self.requests().len()
        &&& self.requests().len() <= self.channel_capacity
    }

    /// Create a new `InnerTimer` whose pool holds the mappings `0..timer_capacity`.
    pub fn new(timer_capacity: usize, channel_capacity: usize) -> (inner: InnerTimer)
        ensures
            inner.wf(),
            inner.mappings() == Seq::new(timer_capacity as nat, |i: int| i as usize),
            inner.requests() == Seq::<RequestSummary>::empty(),
            inner.capacity() == channel_capacity,
    {
        let mut mapping_queue = new_mapping_queue();
        let mut next_mapping: usize = 0;
        while next_mapping < timer_capacity
            invariant
                next_mapping <= timer_capacity,
                mapping_queue_contents(mapping_queue) == Seq::new(next_mapping as nat, |i: int| i as usize),
            decreases timer_capacity - next_mapping,
        {
            push_mapping(&mut mapping_queue, next_mapping);
            next_mapping += 1;
            assert(mapping_queue_contents(mapping_queue) =~= Seq::new(next_mapping as nat, |i: int| i as usize));
        }
        InnerTimer {
            mapping_queue: mapping_queue,
            request_queue: new_request_queue(),
            request_count: 0,
            channel_capacity: channel_capacity,
        }
    }

    /// Channel capacity for any created or deleted requests.
    pub fn channel_capacity(&self) -> (c: usize)
        ensures
            c == self.capacity(),
    {
        self.channel_capacity
    }

    /// Attempt to retrieve a mapping, which is required for creating/deleting a timer.
    pub fn try_retrieve_mapping(&mut self) -> (m: Option<usize>)
        requires
            old(self).wf(),
        ensures
            final(self).wf(),
            final(self).requests() == old(self).requests(),
            final(self).capacity() == old(self).capacity(),
            match m {
                Some(m) => {
                    &&& old(self).mappings().len() > 0
                    &&& m == old(self).mappings()[0]
                    &&& final(self).mappings() == old(self).mappings().drop_first()
                },
                None => {
                    &&& old(self).mappings().len() == 0
                    &&& final(self).mappings() == old(self).mappings()
                },
            },
    {
        pop_mapping(&mut self.mapping_queue)
    }

    /// Clients should only call this if they were unable to issue a delete timer request.
    ///
    /// Backing thread should call this after processing a delete timer request.
    pub fn return_mapping(&mut self, mapping: usize)
        requires
            old(self).wf(),
        ensures
            final(self).wf(),
            final(self).mappings() == old(self).mappings().push(mapping),
            final(self).requests() == old(self).requests(),
            final(self).capacity() == old(self).capacity(),
    {
        push_mapping(&mut self.mapping_queue, mapping)
    }

    /// Attempt to enqueue a create timer request.
    pub fn try_push_create_timer(&mut self, timer: CreateTimeout) -> (sent: bool)
        requires
            old(self).wf(),
        ensures
            final(self).wf(),
            final(self).mappings() == old(self).mappings(),
            final(self).capacity() == old(self).capacity(),
            sent == (old(self).requests().len() < old(self).capacity()),
            final(self).requests() == if sent {
                old(self).requests().push(TimeoutRequest::Create(timer).summary())
            } else {
                old(self).requests()
            },
    {
        try_push(&mut self.request_queue, &mut self.request_count, self.channel_capacity, TimeoutRequest::Create(timer))
    }

    /// Attempt to enqueue a delete timer request.
    pub fn try_push_delete_timer(&mut self, timer: DeleteTimeout) -> (sent: bool)
        requires
            old(self).wf(),
        ensures
            final(self).wf(),
            final(self).mappings() == old(self).mappings(),
            final(self).capacity() == old(self).capacity(),
            sent == (old(self).requests().len() < old(self).capacity()),
            final(self).requests() == if sent {
                old(self).requests().push(RequestSummary::Delete { mapping: timer.mapping })
            } else {
                old(self).requests()
            },
    {
        try_push(&mut self.request_queue, &mut self.request_count, self.channel_capacity, TimeoutRequest::Delete(timer))
    }

    /// Attempt to dequeue a timer request.
    pub fn try_pop_request(&mut self) -> (r: Option<TimeoutRequest>)
        requires
            old(self).wf(),
        ensures
            final(self).wf(),
            final(self).mappings() == old(self).mappings(),
            final(self).capacity() == old(self).capacity(),
            match r {
                Some(r) => {
                    &&& old(self).requests().len() > 0
                    &&& r.summary() == old(self).requests()[0]
                    &&& final(self).requests() == old(self).requests().drop_first()
                },
                None => {
                    &&& old(self).requests().len() == 0
                    &&& final(self).requests() == old(self).requests()
                },
            },
    {
        let popped = pop_request(&mut self.request_queue);
        if popped.is_some() {
            self.request_count = self.request_count - 1;
        }
        popped
    }
}

/// Attempt to push an item onto the queue, using the given length and max capacity.
///
/// The item is pushed, and the length counted up, exactly when the length is
/// below the capacity; otherwise both are left as they were. A length within the
/// capacity stays within it.
pub fn try_push(queue: &mut SegQueue<TimeoutRequest>, len: &mut usize, capacity: usize, item: TimeoutRequest) -> (sent: bool)
    ensures
        sent == (*old(len) < capacity),
        *final(len) == if sent { *old(len) + 1 } else { *old(len) as int },
        *old(len) <= capacity ==> *final(len) <= capacity,
        request_queue_contents(*final(queue)) == if sent {
            request_queue_contents(*old(queue)).push(item.summary())
        } else {
            request_queue_contents(*old(queue))
        },
{
    let queue_size = *len;
    if queue_size >= capacity {
        false
    } else {
        push_request(queue, item);
        *len = queue_size + 1;
        true
    }
}

/// A mapping taken from the pool (`try_retrieve_mapping`) and given back
/// (`return_mapping`) leaves the pool holding the same mappings: none is lost
/// and none is made up.
pub proof fn lemma_mapping_round_trip(pool: Seq<usize>)
    requires
        pool.len() > 0,
    ensures
        pool.drop_first().push(pool[0]).to_multiset() =~= pool.to_multiset(),
{
    let head = seq![pool[0]];
    let rest = pool.drop_first();
    assert(pool =~= head + rest);
    broadcast use vstd::multiset::group_multiset_axioms;
    vstd::seq_lib::lemma_multiset_commutative(head, rest);
    vstd::seq_lib::lemma_multiset_commutative(rest, head);
    assert(rest + head =~= rest.push(pool[0]));
    assert(head.to_multiset().add(rest.to_multiset()) =~= rest.to_multiset().add(head.to_multiset()));
}

/// Requests leave the channel (`try_pop_request`) in the order they were
/// queued (`try_push_create_timer`, `try_push_delete_timer`): a request queued
/// behind others comes out after them, and one queued into an empty channel
/// comes out next.
pub proof fn lemma_channel_first_in_first_out(queued: Seq<RequestSummary>, r: RequestSummary)
    ensures
        queued.len() > 0 ==> queued.push(r)[0] == queued[0] && queued.push(r).drop_first()
            == queued.drop_first().push(r),
        queued.len() == 0 ==> queued.push(r)[0] == r && queued.push(r).drop_first() == queued,
{
    if queued.len() > 0 {
        assert(queued.push(r).drop_first() =~= queued.drop_first().push(r));
    } else {
        assert(queued.push(r).drop_first() =~= queued);
    }
}

/// Validate that the timeout is valid, and see if there is room (get a mapping).
///
/// A duration above the maximum timeout is refused with `MaxTimeoutExceeded`,
/// and an empty mapping pool (every slot of the pendulum promised) with
/// `MaxCapacityReached`.
pub fn validate_request(inner: &mut InnerTimer, max_timeout: u128, duration: u128) -> (r: PendulumResult<usize, ()>)
    requires
        old(inner).wf(),
    ensures
        final(inner).wf(),
        final(inner).requests() == old(inner).requests(),
        final(inner).capacity() == old(inner).capacity(),
        duration > max_timeout ==> {
            &&& r matches Err(e) && e.spec_kind() == PendulumErrorKind::MaxTimeoutExceeded
            &&& final(inner).mappings() == old(inner).mappings()
        },
        duration <= max_timeout && old(inner).mappings().len() == 0 ==> {
            &&& r matches Err(e) && e.spec_kind() == PendulumErrorKind::MaxCapacityReached
            &&& final(inner).mappings() == old(inner).mappings()
        },
        duration <= max_timeout && old(inner).mappings().len() > 0 ==> {
            &&& r == Ok::<usize, PendulumError<()>>(old(inner).mappings()[0])
            &&& final(inner).mappings() == old(inner).mappings().drop_first()
        },
{
    if duration > max_timeout {
        Err(PendulumError::new((), PendulumErrorKind::MaxTimeoutExceeded))
    } else {
        match inner.try_retrieve_mapping() {
            Some(mapping) => Ok(mapping),
            None => Err(PendulumError::new((), PendulumErrorKind::MaxCapacityReached)),
        }
    }
}

} // verus!
