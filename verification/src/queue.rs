//! The queue that a session asks before it identifies.
//!
//! A process picks one of three queues at startup and shares it among its
//! sessions: a local queue, the client of a shared admission service, or a
//! limiter with the buckets that the gateway prescribes.

use crate::limiter::{Admission, BucketLimiter, LimiterModel, Waiter, ZeroWidth};
use crate::local::{LocalModel, LocalQueue};
use crate::remote::{ClientModel, RemoteQueueClient, Route, Routed};
use vstd::prelude::*;

verus! {

/// Which queue a process uses.
pub enum QueuePlan<'a> {
    /// The client of the admission service at this address.
    Remote { url: &'a str },
    /// A limiter with this many buckets.
    Bucketed { width: usize },
    /// A local queue.
    Local,
}

/// The queue that a process uses: the client of the admission service where
/// one is set, else a limiter of the width that the gateway reported where
/// it was asked, else a local queue.
pub fn plan<'a>(queuer_url: Option<&'a str>, max_concurrency: Option<usize>) -> (planned: QueuePlan<
    'a,
>)
    ensures
        planned == (match (queuer_url, max_concurrency) {
            (Some(url), _) => QueuePlan::Remote { url },
            (None, Some(width)) => QueuePlan::Bucketed { width },
            (None, None) => QueuePlan::Local,
        }),
{
    match (queuer_url, max_concurrency) {
        (Some(url), _) => QueuePlan::Remote { url },
        (None, Some(width)) => QueuePlan::Bucketed { width },
        (None, None) => QueuePlan::Local,
    }
}

/// One of the three queues.
pub enum Queue<T> {
    Local(LocalQueue<T>),
    Remote(RemoteQueueClient<T>),
    Bucketed(BucketLimiter<T>),
}

/// A queue, as contracts see it.
pub enum QueueModel<T> {
    Local(LocalModel<T>),
    Remote(ClientModel<T>),
    Bucketed(LimiterModel<T>),
}

impl<T> QueueModel<T> {
    /// The queue after a request.
    pub open spec fn request(self, shard_id: u64, handle: T, now: u64) -> Self {
        match self {
            QueueModel::Local(queue) => QueueModel::Local(queue.request(shard_id, handle, now)),
            QueueModel::Remote(client) => QueueModel::Remote(
                client.request(shard_id, handle, now),
            ),
            QueueModel::Bucketed(limiter) => QueueModel::Bucketed(
                limiter.acquire(shard_id, handle, now),
            ),
        }
    }

    /// Where a request goes. Only the client of an admission service that
    /// has not failed sends it elsewhere; every other queue answers.
    pub open spec fn route(self, shard_id: u64, handle: T, now: u64) -> Route<T> {
        match self {
            QueueModel::Local(queue) => Route::Answer(queue.admission(handle, now)),
            QueueModel::Remote(client) => client.route(shard_id, handle, now),
            QueueModel::Bucketed(limiter) => Route::Answer(
                limiter.admission(shard_id, handle, now),
            ),
        }
    }

    /// The queue after a remote request failed: the client is degraded and
    /// its fallback queue has the request. A queue that asks no service
    /// takes the request as any other.
    pub open spec fn remote_failed(self, shard_id: u64, handle: T, now: u64) -> Self {
        match self {
            QueueModel::Remote(client) => QueueModel::Remote(
                client.remote_failed(shard_id, handle, now),
            ),
            _ => self.request(shard_id, handle, now),
        }
    }

    /// What the failed request is answered.
    pub open spec fn fallback_admission(self, shard_id: u64, handle: T, now: u64) -> Admission<T> {
        match self {
            QueueModel::Local(queue) => queue.admission(handle, now),
            QueueModel::Remote(client) => client.fallback_or_new().admission(handle, now),
            QueueModel::Bucketed(limiter) => limiter.admission(shard_id, handle, now),
        }
    }

    /// The bucket whose cooldown runs after a grant to `shard_id`: the
    /// shard's bucket in a limiter, and the only bucket of any other queue.
    pub open spec fn bucket_of(self, shard_id: u64) -> int {
        match self {
            QueueModel::Bucketed(limiter) => limiter.bucket_of(shard_id),
            _ => 0,
        }
    }

    /// When the cooldown of `bucket` ends.
    pub open spec fn due_at(self, bucket: int) -> Option<u64> {
        match self {
            QueueModel::Local(queue) => if bucket == 0 {
                queue.due_at()
            } else {
                None
            },
            QueueModel::Remote(client) => if bucket == 0 {
                client.due_at()
            } else {
                None
            },
            QueueModel::Bucketed(limiter) => limiter.due_at(bucket),
        }
    }

    /// The queue after the end of the cooldown of `bucket` was reported. A
    /// bucket that the queue does not have changes nothing.
    pub open spec fn cooldown_elapsed(self, bucket: int, now: u64) -> Self {
        match self {
            QueueModel::Local(queue) => if bucket == 0 {
                QueueModel::Local(queue.cooldown_elapsed(now))
            } else {
                self
            },
            QueueModel::Remote(client) => if bucket == 0 {
                QueueModel::Remote(client.cooldown_elapsed(now))
            } else {
                self
            },
            QueueModel::Bucketed(limiter) => QueueModel::Bucketed(
                limiter.cooldown_elapsed(bucket, now),
            ),
        }
    }

    /// The waiter that the report for `bucket` admits.
    pub open spec fn admitted(self, bucket: int, now: u64) -> Option<Waiter<T>> {
        match self {
            QueueModel::Local(queue) => if bucket == 0 {
                queue.admitted(now)
            } else {
                None
            },
            QueueModel::Remote(client) => if bucket == 0 {
                client.admitted(now)
            } else {
                None
            },
            QueueModel::Bucketed(limiter) => limiter.admitted(bucket, now),
        }
    }
}

impl<T> View for Queue<T> {
    type V = QueueModel<T>;

    open spec fn view(&self) -> QueueModel<T> {
        match *self {
            Queue::Local(queue) => QueueModel::Local(queue@),
            Queue::Remote(client) => QueueModel::Remote(client@),
            Queue::Bucketed(limiter) => QueueModel::Bucketed(limiter@),
        }
    }
}

impl<T> Queue<T> {
    /// The queue's invariant is that of the queue it is.
    pub open spec fn wf(&self) -> bool {
        match *self {
            Queue::Local(queue) => queue.wf(),
            Queue::Remote(client) => client.wf(),
            Queue::Bucketed(limiter) => limiter.wf(),
        }
    }

    /// A local queue, its grants `cooldown` apart.
    pub fn local(cooldown: u64) -> (queue: Self)
        ensures
            queue.wf(),
            queue@ == QueueModel::Local(LocalModel::<T>::fresh(cooldown)),
    {
        Queue::Local(LocalQueue::new(cooldown))
    }

    /// The queue of a client of the admission service.
    pub fn remote(client: RemoteQueueClient<T>) -> (queue: Self)
        requires
            client.wf(),
        ensures
            queue.wf(),
            queue@ == QueueModel::Remote(client@),
    {
        Queue::Remote(client)
    }

    /// A limiter of `width` buckets, the grants of each `cooldown` apart.
    /// Only the width zero is refused.
    pub fn bucketed(width: usize, cooldown: u64) -> (made: Result<Self, ZeroWidth>)
        ensures
            width == 0 <==> made is Err,
            made matches Ok(queue) ==> queue.wf() && queue@ == QueueModel::Bucketed(
                LimiterModel::<T>::fresh(width as nat, cooldown),
            ),
    {
        match BucketLimiter::new(width, cooldown) {
            Ok(limiter) => Ok(Queue::Bucketed(limiter)),
            Err(refused) => Err(refused),
        }
    }

    /// Takes a request for `shard_id` at `now`, and says what the queue
    /// answered, or where to ask.
    pub fn request(&mut self, shard_id: u64, handle: T, now: u64) -> (routed: Routed<T>)
        requires
            old(self).wf(),
        ensures
            final(self).wf(),
            final(self)@ == old(self)@.request(shard_id, handle, now),
            routed@ == old(self)@.route(shard_id, handle, now),
    {
        match self {
            Queue::Local(queue) => Routed::Local(queue.request(shard_id, handle, now)),
            Queue::Remote(client) => client.request(shard_id, handle, now),
            Queue::Bucketed(limiter) => Routed::Local(limiter.acquire(shard_id, handle, now)),
        }
    }

    /// Reports at `now` that the remote request for `shard_id` failed, and
    /// says what the queue of the process answered to it.
    pub fn remote_failed(&mut self, shard_id: u64, handle: T, now: u64) -> (answer: Admission<T>)
        requires
            old(self).wf(),
        ensures
            final(self).wf(),
            final(self)@ == old(self)@.remote_failed(shard_id, handle, now),
            answer == old(self)@.fallback_admission(shard_id, handle, now),
    {
        match self {
            Queue::Local(queue) => queue.request(shard_id, handle, now),
            Queue::Remote(client) => client.remote_failed(shard_id, handle, now),
            Queue::Bucketed(limiter) => limiter.acquire(shard_id, handle, now),
        }
    }

    /// The bucket whose cooldown runs after a grant to `shard_id`.
    pub fn bucket_of(&self, shard_id: u64) -> (bucket: usize)
        requires
            self.wf(),
        ensures
            bucket == self@.bucket_of(shard_id),
    {
        match self {
            Queue::Bucketed(limiter) => limiter.bucket_of(shard_id),
            _ => 0,
        }
    }

    /// When the cooldown of `bucket` ends and its next waiter can be
    /// admitted.
    pub fn due_at(&self, bucket: usize) -> (due: Option<u64>)
        requires
            self.wf(),
        ensures
            due == self@.due_at(bucket as int),
    {
        match self {
            Queue::Local(queue) => if bucket == 0 {
                queue.due_at()
            } else {
                None
            },
            Queue::Remote(client) => if bucket == 0 {
                client.due_at()
            } else {
                None
            },
            Queue::Bucketed(limiter) => limiter.due_at(bucket),
        }
    }

    /// Reports at `now` that the cooldown of `bucket` has ended, and hands
    /// back the request that is admitted by it. A report that comes too
    /// early changes nothing.
    pub fn cooldown_elapsed(&mut self, bucket: usize, now: u64) -> (admitted: Option<Waiter<T>>)
        requires
            old(self).wf(),
        ensures
            final(self).wf(),
            final(self)@ == old(self)@.cooldown_elapsed(bucket as int, now),
            admitted == old(self)@.admitted(bucket as int, now),
    {
        match self {
            Queue::Local(queue) => if bucket == 0 {
                queue.cooldown_elapsed(now)
            } else {
                None
            },
            Queue::Remote(client) => if bucket == 0 {
                client.cooldown_elapsed(now)
            } else {
                None
            },
            Queue::Bucketed(limiter) => limiter.cooldown_elapsed(bucket, now),
        }
    }
}

} // verus!
