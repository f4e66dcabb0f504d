//! The local queue: one bucket for a whole process.

use crate::limiter::{Admission, BucketLimiter, BucketModel, Waiter};
use vstd::pervasive::unreached;
use vstd::prelude::*;

verus! {

/// The local queue, as contracts see it: its cooldown and its only bucket.
pub struct LocalModel<T> {
    pub cooldown: u64,
    pub bucket: BucketModel<T>,
}

impl<T> LocalModel<T> {
    pub open spec fn fresh(cooldown: u64) -> Self {
        LocalModel { cooldown, bucket: BucketModel::idle() }
    }

    /// Nobody waits for a queue that never issued a grant.
    pub open spec fn wf(self) -> bool {
        self.bucket.wf_at(0, 1)
    }

    /// A request can be granted at `now`.
    pub open spec fn free(self, now: u64) -> bool {
        self.bucket.free(self.cooldown, now)
    }

    /// What a request is answered at `now`.
    pub open spec fn admission(self, handle: T, now: u64) -> Admission<T> {
        self.bucket.admission(self.cooldown, handle, now)
    }

    /// The queue after a request for `shard_id` arrived at `now`.
    pub open spec fn request(self, shard_id: u64, handle: T, now: u64) -> Self {
        LocalModel {
            cooldown: self.cooldown,
            bucket: self.bucket.acquire(self.cooldown, shard_id, handle, now),
        }
    }

    /// The waiter that a report of the end of the cooldown admits at `now`.
    pub open spec fn admitted(self, now: u64) -> Option<Waiter<T>> {
        self.bucket.admitted(self.cooldown, now)
    }

    /// The queue after the end of its cooldown was reported at `now`.
    pub open spec fn cooldown_elapsed(self, now: u64) -> Self {
        LocalModel {
            cooldown: self.cooldown,
            bucket: self.bucket.cooldown_elapsed(self.cooldown, now),
        }
    }

    /// When the cooldown ends.
    pub open spec fn due_at(self) -> Option<u64> {
        self.bucket.due_at(self.cooldown)
    }
}

/// A limiter of width one. Every shard falls into its only bucket, so all
/// requests of the process are granted one after another, a cooldown apart.
pub struct LocalQueue<T> {
    limiter: BucketLimiter<T>,
}

impl<T> View for LocalQueue<T> {
    type V = LocalModel<T>;

    closed spec fn view(&self) -> LocalModel<T> {
        LocalModel { cooldown: self.limiter@.cooldown, bucket: self.limiter@.buckets[0] }
    }
}

impl<T> LocalQueue<T> {
    /// The queue's invariant: its limiter is well-formed and has one
    /// bucket.
    pub closed spec fn wf(&self) -> bool {
        &&& self.limiter.wf()
        &&& self.limiter@.width() == 1
    }

    /// A well-formed queue has a well-formed model, to which the laws of
    /// the model apply.
    pub proof fn lemma_wf(&self)
        requires
            self.wf(),
        ensures
            self@.wf(),
    {
    }

    /// A queue that has issued no grant, with `cooldown` between its
    /// grants.
    pub fn new(cooldown: u64) -> (queue: Self)
        ensures
            queue.wf(),
            queue@ == LocalModel::<T>::fresh(cooldown),
    {
        match BucketLimiter::new(1, cooldown) {
            Ok(limiter) => LocalQueue { limiter },
            Err(_) => unreached(),
        }
    }

    /// The time between two grants.
    pub fn cooldown(&self) -> (cooldown: u64)
        ensures
            cooldown == self@.cooldown,
    {
        self.limiter.cooldown()
    }

    /// Whether a request would be granted at `now`.
    pub fn is_free(&self, now: u64) -> (free: bool)
        requires
            self.wf(),
        ensures
            free == self@.free(now),
    {
        self.limiter.is_free(0, now)
    }

    /// How many requests wait.
    pub fn waiting(&self) -> (count: usize)
        requires
            self.wf(),
        ensures
            count == self@.bucket.waiting.len(),
    {
        self.limiter.waiting(0)
    }

    /// When the cooldown ends and the next waiter can be admitted. A queue
    /// that never issued a grant has no such time.
    pub fn due_at(&self) -> (due: Option<u64>)
        requires
            self.wf(),
        ensures
            due == self@.due_at(),
    {
        self.limiter.due_at(0)
    }

    /// Takes a request for `shard_id` at `now`: granted at once if the
    /// queue is free, else queued behind all earlier requests, whatever
    /// their shards.
    pub fn request(&mut self, shard_id: u64, handle: T, now: u64) -> (answer: Admission<T>)
        requires
            old(self).wf(),
        ensures
            final(self).wf(),
            final(self)@ == old(self)@.request(shard_id, handle, now),
            answer == old(self)@.admission(handle, now),
    {
        let answer = self.limiter.acquire(shard_id, handle, now);
        assert(old(self).limiter@.bucket_of(shard_id) == 0);
        answer
    }

    /// Reports at `now` that the cooldown has ended: the request that
    /// waited longest, if any, is admitted and handed back. A report that
    /// comes too early changes nothing.
    pub fn cooldown_elapsed(&mut self, now: u64) -> (admitted: Option<Waiter<T>>)
        requires
            old(self).wf(),
        ensures
            final(self).wf(),
            final(self)@ == old(self)@.cooldown_elapsed(now),
            admitted == old(self)@.admitted(now),
    {
        self.limiter.cooldown_elapsed(0, now)
    }
}

} // verus!
