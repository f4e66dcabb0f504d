//! The admission queue service: the bucket limiter behind a network front.
//!
//! The service answers two calls. The health check always succeeds. An
//! enqueue call names a shard and is answered once the shard's bucket admits
//! it. Serving connections is not done here: the service takes each call as
//! a value and says what becomes of it.

use crate::limiter::{Admission, BucketLimiter, LimiterModel, Waiter, ZeroWidth};
use vstd::pervasive::unreached;
use vstd::prelude::*;

verus! {

/// The body of the answer to a health check.
pub const HEALTH_BODY: &'static str = "I'm healthy and alive!";

/// The body of the answer to an enqueue call, sent once the grant is issued.
pub const GRANTED_BODY: &'static str = "You're good to initialize session. :)";

/// The status of every answer that the service gives: success.
pub const STATUS_OK: u16 = 200;

/// An answer of the service: a status, and a body in plain text.
#[derive(Clone, Copy, Debug)]
pub struct Response {
    pub status: u16,
    pub body: &'static str,
}

/// The answer to a health check. It is always the same.
pub fn health() -> (response: Response)
    ensures
        response.status == STATUS_OK,
        response.body@ == HEALTH_BODY@,
{
    Response { status: STATUS_OK, body: HEALTH_BODY }
}

/// The answer to an enqueue call, to be sent once its grant is issued.
pub fn granted() -> (response: Response)
    ensures
        response.status == STATUS_OK,
        response.body@ == GRANTED_BODY@,
{
    Response { status: STATUS_OK, body: GRANTED_BODY }
}

/// The shard that a call stands for when it names none.
pub const DEFAULT_SHARD: u64 = 0;

/// The shard that an enqueue call is for: the one it names, else shard 0.
pub open spec fn spec_resolve_shard(shard: Option<u64>) -> u64 {
    match shard {
        Some(shard_id) => shard_id,
        None => DEFAULT_SHARD,
    }
}

/// Whether a call deserves the warning that it will be put into the wrong
/// bucket: it names no shard, and the service has more than one bucket.
pub open spec fn spec_misbucketed(shard: Option<u64>, width: nat) -> bool {
    shard is None && width > 1
}

/// Computes the shard that an enqueue call is for.
pub fn resolve_shard(shard: Option<u64>) -> (shard_id: u64)
    ensures
        shard_id == spec_resolve_shard(shard),
{
    match shard {
        Some(shard_id) => shard_id,
        None => DEFAULT_SHARD,
    }
}

/// What became of an enqueue call.
pub struct Enqueued<T> {
    /// The shard that the call was taken for.
    pub shard_id: u64,
    /// The call named no shard although the service buckets its requests, so
    /// it went to bucket 0 whatever its shard: this is to be warned of.
    pub misbucketed: bool,
    /// What the limiter answered.
    pub answer: Admission<T>,
}

/// The bucket limiter as a service to callers outside the process.
pub struct AdmissionQueueService<T> {
    limiter: BucketLimiter<T>,
}

impl<T> View for AdmissionQueueService<T> {
    type V = LimiterModel<T>;

    closed spec fn view(&self) -> LimiterModel<T> {
        self.limiter@
    }
}

impl<T> AdmissionQueueService<T> {
    /// The service's invariant is that of its limiter.
    pub open spec fn wf(&self) -> bool {
        self@.wf()
    }

    /// A service with a single bucket, for a deployment that has no upstream
    /// to learn a width from. The grants are `cooldown` apart.
    pub fn local(cooldown: u64) -> (service: Self)
        ensures
            service.wf(),
            service@ == LimiterModel::<T>::fresh(1, cooldown),
    {
        match BucketLimiter::new(1, cooldown) {
            Ok(limiter) => AdmissionQueueService { limiter },
            Err(_) => unreached(),
        }
    }

    /// A service with `width` buckets, the grants of each `cooldown` apart.
    /// Only the width zero is refused.
    pub fn with_width(width: usize, cooldown: u64) -> (made: Result<Self, ZeroWidth>)
        ensures
            width == 0 <==> made is Err,
            made matches Ok(service) ==> service.wf() && service@ == LimiterModel::<T>::fresh(
                width as nat,
                cooldown,
            ),
    {
        match BucketLimiter::new(width, cooldown) {
            Ok(limiter) => Ok(AdmissionQueueService { limiter }),
            Err(refused) => Err(refused),
        }
    }

    /// A service for what was learnt at startup: with the width that the
    /// upstream reported, or, where no upstream was asked, with a single
    /// bucket.
    pub fn discovered(max_concurrency: Option<usize>, cooldown: u64) -> (made: Result<
        Self,
        ZeroWidth,
    >)
        ensures
            max_concurrency == Some(0usize) <==> made is Err,
            made matches Ok(service) ==> service.wf() && service@ == LimiterModel::<T>::fresh(
                match max_concurrency {
                    Some(width) => width as nat,
                    None => 1,
                },
                cooldown,
            ),
    {
        match max_concurrency {
            Some(width) => Self::with_width(width, cooldown),
            None => Ok(Self::local(cooldown)),
        }
    }

    /// The number of buckets.
    pub fn width(&self) -> (width: usize)
        ensures
            width == self@.width(),
    {
        self.limiter.width()
    }

    /// Whether the service has more than one bucket, so that the shard a
    /// call names matters.
    pub fn is_bucketed(&self) -> (bucketed: bool)
        ensures
            bucketed <==> self@.width() > 1,
    {
        self.limiter.width() > 1
    }

    /// Takes an enqueue call at `now`. A call that names no shard is taken
    /// for shard 0. The call is granted at once if the shard's bucket is
    /// free, else it waits in the bucket's queue.
    pub fn enqueue(&mut self, shard: Option<u64>, handle: T, now: u64) -> (enqueued: Enqueued<T>)
        requires
            old(self).wf(),
        ensures
            final(self).wf(),
            enqueued.shard_id == spec_resolve_shard(shard),
            enqueued.misbucketed == spec_misbucketed(shard, old(self)@.width()),
            enqueued.answer == old(self)@.admission(enqueued.shard_id, handle, now),
            final(self)@ == old(self)@.acquire(enqueued.shard_id, handle, now),
    {
        let misbucketed = shard.is_none() && self.is_bucketed();
        let shard_id = resolve_shard(shard);
        let answer = self.limiter.acquire(shard_id, handle, now);
        Enqueued { shard_id, misbucketed, answer }
    }

    /// When the cooldown of `bucket` ends and its next call can be
    /// admitted.
    pub fn due_at(&self, bucket: usize) -> (due: Option<u64>)
        ensures
            due == self@.due_at(bucket as int),
    {
        self.limiter.due_at(bucket)
    }

    /// How many calls wait for `bucket`.
    pub fn waiting(&self, bucket: usize) -> (count: usize)
        ensures
            bucket < self@.width() ==> count == self@.buckets[bucket as int].waiting.len(),
            bucket >= self@.width() ==> count == 0,
    {
        self.limiter.waiting(bucket)
    }

    /// Reports at `now` that the cooldown of `bucket` has ended, and hands
    /// back the call that is admitted by it, to be answered now. A report
    /// that comes too early changes nothing.
    pub fn cooldown_elapsed(&mut self, bucket: usize, now: u64) -> (admitted: Option<Waiter<T>>)
        requires
            old(self).wf(),
        ensures
            final(self).wf(),
            final(self)@ == old(self)@.cooldown_elapsed(bucket as int, now),
            admitted == old(self)@.admitted(bucket as int, now),
    {
        self.limiter.cooldown_elapsed(bucket, now)
    }

    /// The bucket that calls for `shard_id` go to.
    pub fn bucket_of(&self, shard_id: u64) -> (bucket: usize)
        requires
            self.wf(),
        ensures
            bucket == self@.bucket_of(shard_id),
            bucket < self@.width(),
    {
        self.limiter.bucket_of(shard_id)
    }
}

} // verus!
