//! The concurrency bucket limiter: one grant per bucket at a time, grants of
//! a bucket a cooldown apart, waiters served first come, first served.
//!
//! The limiter is a state machine over the readings of a clock. It never
//! sleeps and never wakes anybody by itself: whoever drives it tells it the
//! time with every call, reports when the cooldown of a bucket is due, and
//! is handed the waiter that the bucket admits then. The spacing of the
//! grants does not rest on the driver: a report that comes too early changes
//! nothing.

use crate::bucket::{bucket_of, spec_bucket_of};
use vstd::prelude::*;

verus! {

/// A request that waits for its bucket: the shard it is for, and whatever the
/// caller needs to resume the request once it is admitted.
pub struct Waiter<T> {
    pub shard_id: u64,
    pub handle: T,
}

/// A grant: the shard that it went to, and the reading of the clock at
/// which it was issued. It is outstanding for one cooldown from then.
#[derive(Clone, Copy, Debug, PartialEq, Eq, Structural)]
pub struct Grant {
    pub shard_id: u64,
    pub since: u64,
}

/// What the limiter answers to a request.
pub enum Admission<T> {
    /// The bucket was free: the request holds its grant now. The handle
    /// comes back untouched.
    Granted(T),
    /// The bucket is taken: the request waits behind those that came before.
    Queued,
}

/// The milliseconds between two grants of one bucket, where no other
/// spacing is set: what the gateway asks for.
pub const DEFAULT_COOLDOWN_MILLIS: u64 = 6000;

/// The milliseconds between two grants of one bucket: the seconds that are
/// set, else the default. A setting too long for the clock is as long as the
/// clock can tell.
pub fn cooldown_millis(seconds: Option<u64>) -> (millis: u64)
    ensures
        millis == (match seconds {
            Some(set) => if set * 1000 <= u64::MAX {
                (set * 1000) as u64
            } else {
                u64::MAX
            },
            None => DEFAULT_COOLDOWN_MILLIS,
        }),
{
    match seconds {
        Some(set) => match set.checked_mul(1000) {
            Some(millis) => millis,
            None => u64::MAX,
        },
        None => DEFAULT_COOLDOWN_MILLIS,
    }
}

/// The width that a limiter cannot be built with.
#[derive(Debug)]
pub struct ZeroWidth;

/// One bucket, as contracts see it.
pub struct BucketModel<T> {
    /// The grant that was issued last, if any was.
    pub last: Option<Grant>,
    /// Those waiting for the bucket, the one that came first in front.
    pub waiting: Seq<Waiter<T>>,
}

impl<T> BucketModel<T> {
    pub open spec fn idle() -> Self {
        BucketModel { last: None, waiting: Seq::empty() }
    }

    /// A bucket holds only shards that belong to it, and nobody waits for a
    /// bucket that never issued a grant.
    pub open spec fn wf_at(self, bucket: int, width: nat) -> bool {
        &&& self.last is None ==> self.waiting.len() == 0
        &&& self.last matches Some(grant) ==> spec_bucket_of(grant.shard_id, width) == bucket
        &&& forall|i: int|
            0 <= i < self.waiting.len() ==> spec_bucket_of(
                (#[trigger] self.waiting[i]).shard_id,
                width,
            ) == bucket
    }

    /// The bucket is taken at `now`: its last grant is outstanding, for it
    /// was issued less than a cooldown ago.
    pub open spec fn taken(self, cooldown: u64, now: u64) -> bool {
        self.last matches Some(grant) && now < grant.since + cooldown
    }

    /// The shard that holds the grant of the bucket at `now`.
    pub open spec fn holder(self, cooldown: u64, now: u64) -> Option<u64> {
        match self.last {
            Some(grant) => if now < grant.since + cooldown {
                Some(grant.shard_id)
            } else {
                None
            },
            None => None,
        }
    }

    /// A request can be granted at `now`: the bucket is not taken, and
    /// nobody waits who came before.
    pub open spec fn free(self, cooldown: u64, now: u64) -> bool {
        !self.taken(cooldown, now) && self.waiting.len() == 0
    }

    /// When the cooldown of the last grant ends, as far as a clock can
    /// tell.
    pub open spec fn due_at(self, cooldown: u64) -> Option<u64> {
        match self.last {
            Some(grant) => Some(
                if grant.since + cooldown <= u64::MAX {
                    (grant.since + cooldown) as u64
                } else {
                    u64::MAX
                },
            ),
            None => None,
        }
    }

    /// What a request is answered at `now`: it is granted if the bucket is
    /// free, and queued if not.
    pub open spec fn admission(self, cooldown: u64, handle: T, now: u64) -> Admission<T> {
        if self.free(cooldown, now) {
            Admission::Granted(handle)
        } else {
            Admission::Queued
        }
    }

    /// The bucket after a request for `shard_id` arrived at `now`.
    pub open spec fn acquire(self, cooldown: u64, shard_id: u64, handle: T, now: u64) -> Self {
        if self.free(cooldown, now) {
            BucketModel { last: Some(Grant { shard_id, since: now }), waiting: self.waiting }
        } else {
            BucketModel { last: self.last, waiting: self.waiting.push(Waiter { shard_id, handle }) }
        }
    }

    /// The waiter that is admitted when the end of the cooldown is reported
    /// at `now`: the one in front, unless the report comes too early.
    pub open spec fn admitted(self, cooldown: u64, now: u64) -> Option<Waiter<T>> {
        if !self.taken(cooldown, now) && self.waiting.len() > 0 {
            Some(self.waiting[0])
        } else {
            None
        }
    }

    /// The bucket after the end of its cooldown was reported at `now`: the
    /// grant passes to the waiter in front. A report that comes too early,
    /// or finds nobody waiting, changes nothing.
    pub open spec fn cooldown_elapsed(self, cooldown: u64, now: u64) -> Self {
        if !self.taken(cooldown, now) && self.waiting.len() > 0 {
            BucketModel {
                last: Some(Grant { shard_id: self.waiting[0].shard_id, since: now }),
                waiting: self.waiting.skip(1),
            }
        } else {
            self
        }
    }
}

/// What happens to a limiter.
pub enum LimiterEvent<T> {
    /// A request for a shard arrives.
    Request { shard_id: u64, handle: T, now: u64 },
    /// The end of the cooldown of a bucket is reported.
    CooldownElapsed { bucket: int, now: u64 },
}

/// A request that was granted, and when.
pub struct Issued<T> {
    pub request: Waiter<T>,
    pub at: u64,
}

/// The limiter, as contracts see it: its cooldown, and its buckets in order.
pub struct LimiterModel<T> {
    pub cooldown: u64,
    pub buckets: Seq<BucketModel<T>>,
}

impl<T> LimiterModel<T> {
    pub open spec fn fresh(width: nat, cooldown: u64) -> Self {
        LimiterModel { cooldown, buckets: Seq::new(width, |b: int| BucketModel::idle()) }
    }

    pub open spec fn width(self) -> nat {
        self.buckets.len()
    }

    pub open spec fn wf(self) -> bool {
        &&& self.width() >= 1
        &&& forall|b: int|
            0 <= b < self.width() ==> (#[trigger] self.buckets[b]).wf_at(b, self.width())
    }

    /// The bucket of a shard: its id modulo the width.
    pub open spec fn bucket_of(self, shard_id: u64) -> int {
        spec_bucket_of(shard_id, self.width())
    }

    /// A request for `bucket` can be granted at `now`.
    pub open spec fn free(self, bucket: int, now: u64) -> bool {
        self.buckets[bucket].free(self.cooldown, now)
    }

    /// The grant of `shard_id` is outstanding at `now`.
    pub open spec fn holds_grant(self, shard_id: u64, now: u64) -> bool {
        self.buckets[self.bucket_of(shard_id)].holder(self.cooldown, now) == Some(shard_id)
    }

    /// The limiter after a request for `shard_id` arrived at `now`.
    pub open spec fn acquire(self, shard_id: u64, handle: T, now: u64) -> Self {
        let bucket = self.bucket_of(shard_id);
        LimiterModel {
            cooldown: self.cooldown,
            buckets: self.buckets.update(
                bucket,
                self.buckets[bucket].acquire(self.cooldown, shard_id, handle, now),
            ),
        }
    }

    /// What a request for `shard_id` is answered at `now`: what its bucket
    /// answers.
    pub open spec fn admission(self, shard_id: u64, handle: T, now: u64) -> Admission<T> {
        self.buckets[self.bucket_of(shard_id)].admission(self.cooldown, handle, now)
    }

    /// The limiter after the end of the cooldown of `bucket` was reported
    /// at `now`. A bucket that does not exist changes nothing.
    pub open spec fn cooldown_elapsed(self, bucket: int, now: u64) -> Self {
        if 0 <= bucket < self.width() {
            LimiterModel {
                cooldown: self.cooldown,
                buckets: self.buckets.update(
                    bucket,
                    self.buckets[bucket].cooldown_elapsed(self.cooldown, now),
                ),
            }
        } else {
            self
        }
    }

    /// The waiter that the report for `bucket` at `now` admits.
    pub open spec fn admitted(self, bucket: int, now: u64) -> Option<Waiter<T>> {
        if 0 <= bucket < self.width() {
            self.buckets[bucket].admitted(self.cooldown, now)
        } else {
            None
        }
    }

    /// When the cooldown of `bucket` ends.
    pub open spec fn due_at(self, bucket: int) -> Option<u64> {
        if 0 <= bucket < self.width() {
            self.buckets[bucket].due_at(self.cooldown)
        } else {
            None
        }
    }

    /// The limiter after one event.
    pub open spec fn step(self, event: LimiterEvent<T>) -> Self {
        match event {
            LimiterEvent::Request { shard_id, handle, now } => self.acquire(shard_id, handle, now),
            LimiterEvent::CooldownElapsed { bucket, now } => self.cooldown_elapsed(bucket, now),
        }
    }

    /// The limiter after a run of events, the first of them first.
    pub open spec fn run(self, events: Seq<LimiterEvent<T>>) -> Self
        decreases events.len(),
    {
        if events.len() == 0 {
            self
        } else {
            self.run(events.drop_last()).step(events.last())
        }
    }

    /// The request that an event brings to `bucket`, if it brings one.
    pub open spec fn requested_by(self, event: LimiterEvent<T>, bucket: int) -> Option<Waiter<T>> {
        match event {
            LimiterEvent::Request { shard_id, handle, .. } => if self.bucket_of(shard_id)
                == bucket {
                Some(Waiter { shard_id, handle })
            } else {
                None
            },
            LimiterEvent::CooldownElapsed { .. } => None,
        }
    }

    /// The request that an event has granted in `bucket`, if it has one
    /// granted: a request that finds the bucket free is granted itself, and
    /// a report of the end of the cooldown has the waiter in front granted.
    pub open spec fn granted_by(self, event: LimiterEvent<T>, bucket: int) -> Option<Issued<T>> {
        match event {
            LimiterEvent::Request { shard_id, handle, now } => if self.bucket_of(shard_id)
                == bucket && self.free(bucket, now) {
                Some(Issued { request: Waiter { shard_id, handle }, at: now })
            } else {
                None
            },
            LimiterEvent::CooldownElapsed { bucket: cooled, now } => if cooled == bucket {
                match self.admitted(bucket, now) {
                    Some(request) => Some(Issued { request, at: now }),
                    None => None,
                }
            } else {
                None
            },
        }
    }

    /// The requests that a run of events brings to `bucket`, in the order
    /// in which they arrive.
    pub open spec fn requests(self, events: Seq<LimiterEvent<T>>, bucket: int) -> Seq<Waiter<T>>
        decreases events.len(),
    {
        if events.len() == 0 {
            Seq::empty()
        } else {
            let earlier = self.requests(events.drop_last(), bucket);
            match self.run(events.drop_last()).requested_by(events.last(), bucket) {
                Some(request) => earlier.push(request),
                None => earlier,
            }
        }
    }

    /// The requests that are granted in `bucket` in a run of events, in the
    /// order in which they are granted, each with its time.
    pub open spec fn grants(self, events: Seq<LimiterEvent<T>>, bucket: int) -> Seq<Issued<T>>
        decreases events.len(),
    {
        if events.len() == 0 {
            Seq::empty()
        } else {
            let earlier = self.grants(events.drop_last(), bucket);
            match self.run(events.drop_last()).granted_by(events.last(), bucket) {
                Some(issued) => earlier.push(issued),
                None => earlier,
            }
        }
    }
}

/// The requests of a run of grants.
pub open spec fn requests_of<T>(grants: Seq<Issued<T>>) -> Seq<Waiter<T>> {
    Seq::new(grants.len(), |i: int| grants[i].request)
}

struct Bucket<T> {
    last: Option<Grant>,
    waiting: Vec<Waiter<T>>,
}

impl<T> Bucket<T> {
    spec fn model(self) -> BucketModel<T> {
        BucketModel { last: self.last, waiting: self.waiting@ }
    }

    fn taken(&self, cooldown: u64, now: u64) -> (taken: bool)
        ensures
            taken == self.model().taken(cooldown, now),
    {
        match self.last {
            Some(grant) => now < grant.since || now - grant.since < cooldown,
            None => false,
        }
    }
}

/// Grants at most one permit per bucket at a time, and the permits of a
/// bucket no less than a cooldown apart.
pub struct BucketLimiter<T> {
    cooldown: u64,
    buckets: Vec<Bucket<T>>,
}

impl<T> View for BucketLimiter<T> {
    type V = LimiterModel<T>;

    closed spec fn view(&self) -> LimiterModel<T> {
        LimiterModel {
            cooldown: self.cooldown,
            buckets: Seq::new(self.buckets@.len(), |b: int| self.buckets@[b].model()),
        }
    }
}

impl<T> BucketLimiter<T> {
    /// The limiter's invariant: there is a bucket, each bucket holds only
    /// its own shards, and nobody waits for a bucket that never issued a
    /// grant.
    pub open spec fn wf(&self) -> bool {
        self@.wf()
    }

    /// A limiter of `width` buckets that have issued no grant, with
    /// `cooldown` between the grants of a bucket. Only the width zero is
    /// refused.
    pub fn new(width: usize, cooldown: u64) -> (made: Result<Self, ZeroWidth>)
        ensures
            width == 0 <==> made is Err,
            made matches Ok(limiter) ==> limiter.wf() && limiter@ == LimiterModel::<T>::fresh(
                width as nat,
                cooldown,
            ),
    {
        if width == 0 {
            return Err(ZeroWidth);
        }
        let mut buckets: Vec<Bucket<T>> = Vec::new();
        let mut built: usize = 0;
        while built < width
            invariant
                built <= width,
                buckets@.len() == built,
                forall|b: int|
                    0 <= b < built ==> (#[trigger] buckets@[b]).model() == BucketModel::<T>::idle(),
            decreases width - built,
        {
            buckets.push(Bucket { last: None, waiting: Vec::new() });
            built = built + 1;
        }
        let limiter = BucketLimiter { cooldown, buckets };
        assert(limiter@.buckets =~= LimiterModel::<T>::fresh(width as nat, cooldown).buckets);
        Ok(limiter)
    }

    /// The number of buckets. It never changes.
    pub fn width(&self) -> (width: usize)
        ensures
            width == self@.width(),
    {
        self.buckets.len()
    }

    /// The time between two grants of a bucket. It never changes.
    pub fn cooldown(&self) -> (cooldown: u64)
        ensures
            cooldown == self@.cooldown,
    {
        self.cooldown
    }

    /// The bucket that requests for `shard_id` go to.
    pub fn bucket_of(&self, shard_id: u64) -> (bucket: usize)
        requires
            self.wf(),
        ensures
            bucket == self@.bucket_of(shard_id),
            bucket < self@.width(),
    {
        bucket_of(shard_id, self.buckets.len())
    }

    /// Whether a request for `bucket` would be granted at `now`. A bucket
    /// that does not exist grants nothing.
    pub fn is_free(&self, bucket: usize, now: u64) -> (free: bool)
        ensures
            free <==> bucket < self@.width() && self@.free(bucket as int, now),
    {
        bucket < self.buckets.len() && !self.buckets[bucket].taken(self.cooldown, now)
            && self.buckets[bucket].waiting.len() == 0
    }

    /// How many requests wait for `bucket`; none for a bucket that does not
    /// exist.
    pub fn waiting(&self, bucket: usize) -> (count: usize)
        ensures
            bucket < self@.width() ==> count == self@.buckets[bucket as int].waiting.len(),
            bucket >= self@.width() ==> count == 0,
    {
        if bucket < self.buckets.len() {
            self.buckets[bucket].waiting.len()
        } else {
            0
        }
    }

    /// When the cooldown of `bucket` ends and its next waiter can be
    /// admitted: one cooldown after its last grant, or at the end of the
    /// clock if that comes first. A bucket that never issued a grant, or
    /// does not exist, has no such time.
    pub fn due_at(&self, bucket: usize) -> (due: Option<u64>)
        ensures
            due == self@.due_at(bucket as int),
    {
        if bucket >= self.buckets.len() {
            return None;
        }
        match self.buckets[bucket].last {
            Some(grant) => match grant.since.checked_add(self.cooldown) {
                Some(due) => Some(due),
                None => Some(u64::MAX),
            },
            None => None,
        }
    }

    /// Takes a request for `shard_id` at `now`. If the shard's bucket is
    /// free the request is granted at once and holds the bucket for one
    /// cooldown; otherwise it joins the end of the bucket's queue.
    pub fn acquire(&mut self, shard_id: u64, handle: T, now: u64) -> (answer: Admission<T>)
        requires
            old(self).wf(),
        ensures
            final(self).wf(),
            final(self)@ == old(self)@.acquire(shard_id, handle, now),
            answer == old(self)@.admission(shard_id, handle, now),
            answer is Granted <==> old(self)@.free(old(self)@.bucket_of(shard_id), now),
    {
        let bucket = self.bucket_of(shard_id);
        let free = !self.buckets[bucket].taken(self.cooldown, now)
            && self.buckets[bucket].waiting.len() == 0;
        let answer = if free {
            self.buckets[bucket].last = Some(Grant { shard_id, since: now });
            Admission::Granted(handle)
        } else {
            self.buckets[bucket].waiting.push(Waiter { shard_id, handle });
            Admission::Queued
        };
        proof {
            let expected = old(self)@.acquire(shard_id, handle, now);
            assert(self@.buckets =~= expected.buckets);
            lemma_acquire_keeps_wf(old(self)@, shard_id, handle, now);
        }
        answer
    }

    /// Reports at `now` that the cooldown of `bucket` has ended. If that is
    /// so and somebody waits, the one that came first is admitted, handed
    /// back to be resumed, and holds the bucket for one cooldown from now.
    /// A report that comes too early, that finds nobody waiting, or that is
    /// for a bucket that does not exist, changes nothing.
    pub fn cooldown_elapsed(&mut self, bucket: usize, now: u64) -> (admitted: Option<Waiter<T>>)
        requires
            old(self).wf(),
        ensures
            final(self).wf(),
            final(self)@ == old(self)@.cooldown_elapsed(bucket as int, now),
            admitted == old(self)@.admitted(bucket as int, now),
    {
        if bucket >= self.buckets.len() {
            return None;
        }
        let admitted = if self.buckets[bucket].taken(self.cooldown, now)
            || self.buckets[bucket].waiting.len() == 0 {
            None
        } else {
            let next = self.buckets[bucket].waiting.remove(0);
            self.buckets[bucket].last = Some(Grant { shard_id: next.shard_id, since: now });
            Some(next)
        };
        proof {
            let expected = old(self)@.cooldown_elapsed(bucket as int, now);
            assert(old(self)@.buckets[bucket as int].waiting.skip(1)
                =~= old(self)@.buckets[bucket as int].waiting.subrange(
                1,
                old(self)@.buckets[bucket as int].waiting.len() as int,
            ));
            assert(self@.buckets =~= expected.buckets);
            lemma_cooldown_keeps_wf(old(self)@, bucket as int, now);
        }
        admitted
    }
}

/// A request leaves a well-formed limiter well-formed, and its width and
/// cooldown as they were.
pub proof fn lemma_acquire_keeps_wf<T>(
    limiter: LimiterModel<T>,
    shard_id: u64,
    handle: T,
    now: u64,
)
    requires
        limiter.wf(),
    ensures
        limiter.acquire(shard_id, handle, now).wf(),
        limiter.acquire(shard_id, handle, now).width() == limiter.width(),
        limiter.acquire(shard_id, handle, now).cooldown == limiter.cooldown,
{
    let after = limiter.acquire(shard_id, handle, now);
    let bucket = limiter.bucket_of(shard_id);
    assert(0 <= bucket < limiter.width());
    assert forall|b: int| 0 <= b < after.width() implies (#[trigger] after.buckets[b]).wf_at(
        b,
        after.width(),
    ) by {
        assert(limiter.buckets[b].wf_at(b, limiter.width()));
    }
}

/// A report of the end of a cooldown leaves a well-formed limiter
/// well-formed, and its width and cooldown as they were.
pub proof fn lemma_cooldown_keeps_wf<T>(limiter: LimiterModel<T>, bucket: int, now: u64)
    requires
        limiter.wf(),
    ensures
        limiter.cooldown_elapsed(bucket, now).wf(),
        limiter.cooldown_elapsed(bucket, now).width() == limiter.width(),
        limiter.cooldown_elapsed(bucket, now).cooldown == limiter.cooldown,
{
    let after = limiter.cooldown_elapsed(bucket, now);
    assert forall|b: int| 0 <= b < after.width() implies (#[trigger] after.buckets[b]).wf_at(
        b,
        after.width(),
    ) by {
        assert(limiter.buckets[b].wf_at(b, limiter.width()));
        if b == bucket && limiter.buckets[b].waiting.len() > 0 {
            let before = limiter.buckets[b].waiting;
            assert(spec_bucket_of(before[0].shard_id, limiter.width()) == b);
            assert forall|i: int| 0 <= i < before.skip(1).len() implies spec_bucket_of(
                (#[trigger] before.skip(1)[i]).shard_id,
                limiter.width(),
            ) == b by {
                assert(before.skip(1)[i] == before[i + 1]);
            }
        }
    }
}

/// Whatever happens to a limiter, it stays well-formed and keeps its width
/// and its cooldown.
pub proof fn lemma_run_keeps_wf<T>(limiter: LimiterModel<T>, events: Seq<LimiterEvent<T>>)
    requires
        limiter.wf(),
    ensures
        limiter.run(events).wf(),
        limiter.run(events).width() == limiter.width(),
        limiter.run(events).cooldown == limiter.cooldown,
    decreases events.len(),
{
    if events.len() > 0 {
        let before = limiter.run(events.drop_last());
        lemma_run_keeps_wf(limiter, events.drop_last());
        match events.last() {
            LimiterEvent::Request { shard_id, handle, now } => {
                lemma_acquire_keeps_wf(before, shard_id, handle, now);
            },
            LimiterEvent::CooldownElapsed { bucket, now } => {
                lemma_cooldown_keeps_wf(before, bucket, now);
            },
        }
    }
}

/// No request is lost, none is granted twice, and none overtakes another:
/// after any run of events, those that waited for a bucket before the run,
/// followed by the requests that the run brought to the bucket, are the
/// requests that the run granted there, followed by those that still wait,
/// each in its order.
pub proof fn lemma_grants_follow_arrival<T>(
    limiter: LimiterModel<T>,
    events: Seq<LimiterEvent<T>>,
    bucket: int,
)
    requires
        limiter.wf(),
        0 <= bucket < limiter.width(),
    ensures
        limiter.buckets[bucket].waiting + limiter.requests(events, bucket) == requests_of(
            limiter.grants(events, bucket),
        ) + limiter.run(events).buckets[bucket].waiting,
    decreases events.len(),
{
    let waited = limiter.buckets[bucket].waiting;
    if events.len() == 0 {
        assert(waited + limiter.requests(events, bucket) =~= requests_of(
            limiter.grants(events, bucket),
        ) + limiter.run(events).buckets[bucket].waiting);
    } else {
        let earlier = events.drop_last();
        let before = limiter.run(earlier);
        let after = limiter.run(events);
        lemma_grants_follow_arrival(limiter, earlier, bucket);
        lemma_run_keeps_wf(limiter, earlier);
        assert(before.buckets[bucket].wf_at(bucket, before.width()));
        let requested = limiter.requests(earlier, bucket);
        let issued = limiter.grants(earlier, bucket);
        let granted = requests_of(issued);
        let waiting = before.buckets[bucket].waiting;
        assert(waited + requested == granted + waiting);
        match events.last() {
            LimiterEvent::Request { shard_id, handle, now } => {
                let request = Waiter { shard_id, handle };
                if before.bucket_of(shard_id) == bucket {
                    assert(waited + requested.push(request) =~= (waited + requested).push(
                        request,
                    ));
                    if before.free(bucket, now) {
                        assert(waiting.len() == 0);
                        assert(after.buckets[bucket].waiting == waiting);
                        assert(requests_of(issued.push(Issued { request, at: now })) + waiting
                            =~= (granted + waiting).push(request));
                    } else {
                        assert(after.buckets[bucket].waiting == waiting.push(request));
                        assert(granted + waiting.push(request) =~= (granted + waiting).push(
                            request,
                        ));
                    }
                } else {
                    assert(after.buckets[bucket] == before.buckets[bucket]);
                }
            },
            LimiterEvent::CooldownElapsed { bucket: cooled, now } => {
                if cooled == bucket && before.admitted(bucket, now) is Some {
                    assert(after.buckets[bucket].waiting == waiting.skip(1));
                    assert(requests_of(issued.push(Issued { request: waiting[0], at: now }))
                        + waiting.skip(1) =~= granted + waiting);
                } else {
                    assert(after.buckets[bucket].waiting == waiting);
                }
            },
        }
    }
}

/// The grants of a bucket are a cooldown apart, whatever the clock reads
/// and whenever the ends of cooldowns are reported: of the grants of a run
/// of events, each is issued no sooner than one cooldown after the one
/// before it, and the first no sooner than one cooldown after the grant
/// that was the last before the run. The grant that is the last after the
/// run is the last of the run.
pub proof fn lemma_grants_are_spaced<T>(
    limiter: LimiterModel<T>,
    events: Seq<LimiterEvent<T>>,
    bucket: int,
)
    requires
        limiter.wf(),
        0 <= bucket < limiter.width(),
    ensures
        ({
            let grants = limiter.grants(events, bucket);
            let last = limiter.run(events).buckets[bucket].last;
            &&& forall|i: int|
                0 < i < grants.len() ==> (#[trigger] grants[i]).at >= grants[i - 1].at
                    + limiter.cooldown
            &&& (grants.len() > 0 && limiter.buckets[bucket].last is Some) ==> grants[0].at
                >= limiter.buckets[bucket].last->Some_0.since + limiter.cooldown
            &&& grants.len() > 0 ==> last == Some(
                Grant { shard_id: grants.last().request.shard_id, since: grants.last().at },
            )
            &&& grants.len() == 0 ==> last == limiter.buckets[bucket].last
        }),
    decreases events.len(),
{
    if events.len() > 0 {
        let earlier = events.drop_last();
        let before = limiter.run(earlier);
        lemma_grants_are_spaced(limiter, earlier, bucket);
        lemma_run_keeps_wf(limiter, earlier);
        let issued = limiter.grants(earlier, bucket);
        let grants = limiter.grants(events, bucket);
        match before.granted_by(events.last(), bucket) {
            Some(grant) => {
                assert(grants == issued.push(grant));
                assert forall|i: int| 0 < i < grants.len() implies (#[trigger] grants[i]).at
                    >= grants[i - 1].at + limiter.cooldown by {
                    if i < issued.len() {
                        assert(grants[i] == issued[i]);
                        assert(grants[i - 1] == issued[i - 1]);
                    }
                }
            },
            None => {
                assert(grants == issued);
                match events.last() {
                    LimiterEvent::Request { shard_id, handle, now } => {
                        if before.bucket_of(shard_id) != bucket {
                            assert(limiter.run(events).buckets[bucket] == before.buckets[bucket]);
                        }
                    },
                    LimiterEvent::CooldownElapsed { bucket: cooled, now } => {},
                }
            },
        }
    }
}

/// For every width but zero, whatever requests arrive, whatever the clock
/// reads and whenever the ends of cooldowns are reported, no two shards with
/// the same remainder modulo the width hold a grant at the same time.
pub proof fn lemma_grants_never_overlap<T>(
    width: nat,
    cooldown: u64,
    events: Seq<LimiterEvent<T>>,
    first: u64,
    second: u64,
    now: u64,
)
    requires
        width >= 1,
        first as int % width as int == second as int % width as int,
    ensures
        ({
            let limiter = LimiterModel::<T>::fresh(width, cooldown).run(events);
            limiter.holds_grant(first, now) && limiter.holds_grant(second, now) ==> first == second
        }),
{
    let fresh = LimiterModel::<T>::fresh(width, cooldown);
    assert(fresh.wf());
    lemma_run_keeps_wf(fresh, events);
    lemma_one_grant_per_bucket(fresh.run(events), first, second, now);
}

/// A bucket has at most one grant outstanding: of two shards that share a
/// bucket, only one can hold a grant, and then they are the same shard.
pub proof fn lemma_one_grant_per_bucket<T>(
    limiter: LimiterModel<T>,
    first: u64,
    second: u64,
    now: u64,
)
    requires
        limiter.wf(),
        limiter.bucket_of(first) == limiter.bucket_of(second),
    ensures
        limiter.holds_grant(first, now) && limiter.holds_grant(second, now) ==> first == second,
{
}

/// While a grant is outstanding in a bucket, a request of any shard of that
/// bucket is queued, not granted, and the outstanding grant stays with its
/// holder.
pub proof fn lemma_taken_bucket_grants_nothing<T>(
    limiter: LimiterModel<T>,
    holder: u64,
    shard_id: u64,
    handle: T,
    now: u64,
)
    requires
        limiter.wf(),
        limiter.bucket_of(holder) == limiter.bucket_of(shard_id),
        limiter.holds_grant(holder, now),
    ensures
        limiter.admission(shard_id, handle, now) == Admission::<T>::Queued,
        limiter.acquire(shard_id, handle, now).holds_grant(holder, now),
        shard_id != holder ==> !limiter.acquire(shard_id, handle, now).holds_grant(shard_id, now),
        limiter.admitted(limiter.bucket_of(holder), now) is None,
        limiter.cooldown_elapsed(limiter.bucket_of(holder), now) == limiter,
{
    let bucket = limiter.bucket_of(holder);
    assert(limiter.buckets.update(bucket, limiter.buckets[bucket]) =~= limiter.buckets);
}

/// The bucket of a shard stays the same for the life of a limiter: neither a
/// request nor a report changes the width, so neither changes any shard's
/// bucket.
pub proof fn lemma_bucket_assignment_stable<T>(
    limiter: LimiterModel<T>,
    shard_id: u64,
    events: Seq<LimiterEvent<T>>,
)
    requires
        limiter.wf(),
    ensures
        limiter.run(events).bucket_of(shard_id) == limiter.bucket_of(shard_id),
{
    lemma_run_keeps_wf(limiter, events);
}

/// Buckets do not disturb each other: a request, or a report of the end of
/// a cooldown, changes no bucket but its own.
pub proof fn lemma_buckets_are_independent<T>(
    limiter: LimiterModel<T>,
    event: LimiterEvent<T>,
    other: int,
)
    requires
        limiter.wf(),
        0 <= other < limiter.width(),
    ensures
        (match event {
            LimiterEvent::Request { shard_id, .. } => other != limiter.bucket_of(shard_id),
            LimiterEvent::CooldownElapsed { bucket, .. } => other != bucket,
        }) ==> limiter.step(event).buckets[other] == limiter.buckets[other],
{
}

} // verus!
