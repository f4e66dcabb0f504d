//! The client of a shared admission service, with its fallback.
//!
//! The client asks a remote service for permission, one request per shard.
//! The first request that fails ends that for good: from then on a local
//! queue of the client's own admits every request of the process.
//!
//! The client performs no request itself. It says where to ask, is told how
//! that went, and keeps the mode and the fallback queue.

use crate::limiter::{Admission, Waiter};
use crate::local::{LocalModel, LocalQueue};
use crate::text::{decimal, push_decimal};
use vstd::prelude::*;
use vstd::string::StringExecFns;

verus! {

/// Where a client's requests go.
#[derive(Clone, Copy, Debug, PartialEq, Eq, Structural)]
pub enum QueueMode {
    /// To the shared admission service.
    Remote,
    /// To the client's own local queue, since a remote request failed.
    DegradedLocal,
}

/// The admission service did not answer the trial request.
#[derive(Debug)]
pub struct SetupError;

/// The shard that the trial request at construction is made for.
pub const SELF_TEST_SHARD: u64 = 0;

/// The address to ask for `shard_id`: the base address, `queue?shard=`, and
/// the shard's id in decimal.
pub open spec fn spec_request_url(base_url: Seq<char>, shard_id: u64) -> Seq<char> {
    base_url + "queue?shard="@ + decimal(shard_id as nat)
}

/// Builds the address to ask for `shard_id` at the service under `base_url`.
pub fn request_url(base_url: &str, shard_id: u64) -> (url: String)
    ensures
        url@ == spec_request_url(base_url@, shard_id),
{
    let mut url = String::from_str(base_url);
    url.append("queue?shard=");
    push_decimal(&mut url, shard_id);
    url
}

/// Where one request went.
pub enum Routed<T> {
    /// Nowhere yet: the service at `url` is to be asked. The handle comes
    /// back untouched.
    Remote { url: String, handle: T },
    /// To a queue of the process, which answered.
    Local(Admission<T>),
}

/// Where one request went, as contracts see it.
pub enum Route<T> {
    /// The service at this address is to be asked.
    Ask { url: Seq<char>, handle: T },
    /// A queue of the process answered.
    Answer(Admission<T>),
}

impl<T> View for Routed<T> {
    type V = Route<T>;

    open spec fn view(&self) -> Route<T> {
        match *self {
            Routed::Remote { url, handle } => Route::Ask { url: url@, handle },
            Routed::Local(answer) => Route::Answer(answer),
        }
    }
}

/// What happens to a client.
pub enum ClientEvent<T> {
    /// A shard asks for permission.
    Request { shard_id: u64, handle: T, now: u64 },
    /// The remote request for a shard failed.
    RemoteFailed { shard_id: u64, handle: T, now: u64 },
    /// The end of the cooldown of the fallback queue is reported.
    CooldownElapsed { now: u64 },
}

/// The client, as contracts see it.
pub struct ClientModel<T> {
    pub base_url: Seq<char>,
    /// The time between two grants of the fallback queue.
    pub cooldown: u64,
    /// The fallback queue, once there is one.
    pub fallback: Option<LocalModel<T>>,
}

impl<T> ClientModel<T> {
    pub open spec fn fresh(base_url: Seq<char>, cooldown: u64) -> Self {
        ClientModel { base_url, cooldown, fallback: None }
    }

    pub open spec fn wf(self) -> bool {
        self.fallback matches Some(queue) ==> queue.wf() && queue.cooldown == self.cooldown
    }

    /// The client is degraded exactly when it has a fallback queue.
    pub open spec fn mode(self) -> QueueMode {
        if self.fallback is Some {
            QueueMode::DegradedLocal
        } else {
            QueueMode::Remote
        }
    }

    /// The client after a request: a degraded client hands it to the fallback
    /// queue, another one is unchanged.
    pub open spec fn request(self, shard_id: u64, handle: T, now: u64) -> Self {
        match self.fallback {
            Some(queue) => ClientModel {
                fallback: Some(queue.request(shard_id, handle, now)),
                ..self
            },
            None => self,
        }
    }

    /// Whether a request is answered by the fallback queue.
    pub open spec fn routes_locally(self) -> bool {
        self.fallback is Some
    }

    /// Where a request goes: to the fallback queue of a degraded client,
    /// which answers, and else to the service, under the address of the
    /// shard.
    pub open spec fn route(self, shard_id: u64, handle: T, now: u64) -> Route<T> {
        match self.fallback {
            Some(queue) => Route::Answer(queue.admission(handle, now)),
            None => Route::Ask { url: spec_request_url(self.base_url, shard_id), handle },
        }
    }

    /// The fallback queue that takes over: the one that is there, or else a
    /// new one that has issued no grant.
    pub open spec fn fallback_or_new(self) -> LocalModel<T> {
        match self.fallback {
            Some(queue) => queue,
            None => LocalModel::fresh(self.cooldown),
        }
    }

    /// The client after a remote request failed: degraded, and the failed
    /// request handed to the fallback queue.
    pub open spec fn remote_failed(self, shard_id: u64, handle: T, now: u64) -> Self {
        ClientModel {
            fallback: Some(self.fallback_or_new().request(shard_id, handle, now)),
            ..self
        }
    }

    /// The client after the end of the cooldown of its fallback queue was
    /// reported.
    pub open spec fn cooldown_elapsed(self, now: u64) -> Self {
        match self.fallback {
            Some(queue) => ClientModel { fallback: Some(queue.cooldown_elapsed(now)), ..self },
            None => self,
        }
    }

    /// The waiter that a report of the end of the cooldown admits.
    pub open spec fn admitted(self, now: u64) -> Option<Waiter<T>> {
        match self.fallback {
            Some(queue) => queue.admitted(now),
            None => None,
        }
    }

    /// When the cooldown of the fallback queue ends.
    pub open spec fn due_at(self) -> Option<u64> {
        match self.fallback {
            Some(queue) => queue.due_at(),
            None => None,
        }
    }

    /// The client after one event.
    pub open spec fn step(self, event: ClientEvent<T>) -> Self {
        match event {
            ClientEvent::Request { shard_id, handle, now } => self.request(shard_id, handle, now),
            ClientEvent::RemoteFailed { shard_id, handle, now } => self.remote_failed(
                shard_id,
                handle,
                now,
            ),
            ClientEvent::CooldownElapsed { now } => self.cooldown_elapsed(now),
        }
    }

    /// The client after a run of events, the first of them first.
    pub open spec fn run(self, events: Seq<ClientEvent<T>>) -> Self
        decreases events.len(),
    {
        if events.len() == 0 {
            self
        } else {
            self.run(events.drop_last()).step(events.last())
        }
    }
}

/// Asks a shared admission service for permission, and falls back to a local
/// queue for good once a request has failed.
pub struct RemoteQueueClient<T> {
    base_url: String,
    cooldown: u64,
    fallback: Option<LocalQueue<T>>,
}

impl<T> View for RemoteQueueClient<T> {
    type V = ClientModel<T>;

    closed spec fn view(&self) -> ClientModel<T> {
        ClientModel {
            base_url: self.base_url@,
            cooldown: self.cooldown,
            fallback: match self.fallback {
                Some(queue) => Some(queue@),
                None => None,
            },
        }
    }
}

impl<T> RemoteQueueClient<T> {
    /// The client's invariant: its fallback queue, if it has one, is
    /// well-formed and has the client's cooldown.
    pub closed spec fn wf(&self) -> bool {
        self.fallback matches Some(queue) ==> queue.wf() && queue@.cooldown == self.cooldown
    }

    /// A well-formed client has a well-formed model, to which the laws of
    /// the model apply.
    pub proof fn lemma_wf(&self)
        requires
            self.wf(),
        ensures
            self@.wf(),
    {
        if let Some(queue) = self.fallback {
            queue.lemma_wf();
        }
    }

    /// A client of the service under `base_url`, in remote mode. Should it
    /// ever fall back, the grants of its own queue are `cooldown` apart. It
    /// is to be put to the test before use: see `confirm`.
    pub fn new(base_url: String, cooldown: u64) -> (client: Self)
        ensures
            client.wf(),
            client@ == ClientModel::<T>::fresh(base_url@, cooldown),
    {
        RemoteQueueClient { base_url, cooldown, fallback: None }
    }

    /// The address of the trial request that precedes the client's use.
    pub fn self_test_url(&self) -> (url: String)
        ensures
            url@ == spec_request_url(self@.base_url, SELF_TEST_SHARD),
    {
        request_url(self.base_url.as_str(), SELF_TEST_SHARD)
    }

    /// Ends construction with the outcome of the trial request: a client
    /// whose service did not answer is not handed out.
    pub fn confirm(self, self_test_passed: bool) -> (confirmed: Result<Self, SetupError>)
        ensures
            self_test_passed <==> confirmed is Ok,
            confirmed matches Ok(client) ==> client == self,
    {
        if self_test_passed {
            Ok(self)
        } else {
            Err(SetupError)
        }
    }

    /// Where requests go.
    pub fn mode(&self) -> (mode: QueueMode)
        ensures
            mode == self@.mode(),
    {
        if self.fallback.is_some() {
            QueueMode::DegradedLocal
        } else {
            QueueMode::Remote
        }
    }

    /// Takes a request for `shard_id` at `now`. A degraded client hands it
    /// to its fallback queue and says what that answered. Otherwise the
    /// client says where to ask, and stays as it is.
    pub fn request(&mut self, shard_id: u64, handle: T, now: u64) -> (routed: Routed<T>)
        requires
            old(self).wf(),
        ensures
            final(self).wf(),
            final(self)@ == old(self)@.request(shard_id, handle, now),
            routed@ == old(self)@.route(shard_id, handle, now),
    {
        match &mut self.fallback {
            Some(queue) => Routed::Local(queue.request(shard_id, handle, now)),
            None => Routed::Remote { url: request_url(self.base_url.as_str(), shard_id), handle },
        }
    }

    /// Reports at `now` that the remote request for `shard_id` failed. The
    /// client is degraded from now on. The fallback queue is made if there
    /// is none yet, and the failed request is handed to it.
    pub fn remote_failed(&mut self, shard_id: u64, handle: T, now: u64) -> (answer: Admission<T>)
        requires
            old(self).wf(),
        ensures
            final(self).wf(),
            final(self)@ == old(self)@.remote_failed(shard_id, handle, now),
            final(self)@.mode() == QueueMode::DegradedLocal,
            answer == old(self)@.fallback_or_new().admission(handle, now),
    {
        if self.fallback.is_none() {
            self.fallback = Some(LocalQueue::new(self.cooldown));
        }
        match &mut self.fallback {
            Some(queue) => queue.request(shard_id, handle, now),
            None => vstd::pervasive::unreached(),
        }
    }

    /// When the cooldown of the fallback queue ends and its next waiter can
    /// be admitted. A client in remote mode has no such queue.
    pub fn due_at(&self) -> (due: Option<u64>)
        requires
            self.wf(),
        ensures
            due == self@.due_at(),
    {
        match &self.fallback {
            Some(queue) => queue.due_at(),
            None => None,
        }
    }

    /// Reports at `now` that the cooldown of the fallback queue has ended,
    /// and hands back the request that is admitted by it. A client in
    /// remote mode has no such queue and stays as it is.
    pub fn cooldown_elapsed(&mut self, now: u64) -> (admitted: Option<Waiter<T>>)
        requires
            old(self).wf(),
        ensures
            final(self).wf(),
            final(self)@ == old(self)@.cooldown_elapsed(now),
            admitted == old(self)@.admitted(now),
    {
        match &mut self.fallback {
            Some(queue) => queue.cooldown_elapsed(now),
            None => None,
        }
    }
}

/// Every event leaves a well-formed client well-formed, and its base address
/// and its cooldown as they were.
pub proof fn lemma_step_keeps_wf<T>(client: ClientModel<T>, event: ClientEvent<T>)
    requires
        client.wf(),
    ensures
        client.step(event).wf(),
        client.step(event).base_url == client.base_url,
        client.step(event).cooldown == client.cooldown,
{
    match event {
        ClientEvent::Request { shard_id, handle, now } => {
            if let Some(queue) = client.fallback {
                lemma_queue_request(queue, shard_id, handle, now);
            }
        },
        ClientEvent::RemoteFailed { shard_id, handle, now } => {
            lemma_queue_request(client.fallback_or_new(), shard_id, handle, now);
        },
        ClientEvent::CooldownElapsed { now } => {
            if let Some(queue) = client.fallback {
                lemma_queue_cooldown(queue, now);
            }
        },
    }
}

proof fn lemma_queue_request<T>(queue: LocalModel<T>, shard_id: u64, handle: T, now: u64)
    requires
        queue.wf(),
    ensures
        queue.request(shard_id, handle, now).wf(),
{
}

proof fn lemma_queue_cooldown<T>(queue: LocalModel<T>, now: u64)
    requires
        queue.wf(),
    ensures
        queue.cooldown_elapsed(now).wf(),
{
}

/// Degrading is for good. Once a remote request has failed, whatever happens
/// next, the client stays degraded and answers every further request from
/// its fallback queue: it never says to ask the service again.
pub proof fn lemma_degraded_for_good<T>(
    client: ClientModel<T>,
    shard_id: u64,
    handle: T,
    now: u64,
    later: Seq<ClientEvent<T>>,
)
    requires
        client.wf(),
    ensures
        client.remote_failed(shard_id, handle, now).run(later).wf(),
        client.remote_failed(shard_id, handle, now).run(later).mode() == QueueMode::DegradedLocal,
        client.remote_failed(shard_id, handle, now).run(later).routes_locally(),
    decreases later.len(),
{
    let degraded = client.remote_failed(shard_id, handle, now);
    lemma_step_keeps_wf(client, ClientEvent::RemoteFailed { shard_id, handle, now });
    if later.len() > 0 {
        lemma_degraded_for_good(client, shard_id, handle, now, later.drop_last());
        lemma_step_keeps_wf(degraded.run(later.drop_last()), later.last());
    }
}

/// A degraded client keeps its fallback queue: a request, and even another
/// failure report, go to the queue that is there, not to a new one, and are
/// answered by it, not by the service.
pub proof fn lemma_fallback_is_kept<T>(
    client: ClientModel<T>,
    shard_id: u64,
    handle: T,
    now: u64,
)
    requires
        client.wf(),
        client.mode() == QueueMode::DegradedLocal,
    ensures
        client.request(shard_id, handle, now).fallback == Some(
            client.fallback->Some_0.request(shard_id, handle, now),
        ),
        client.remote_failed(shard_id, handle, now) == client.request(shard_id, handle, now),
        client.route(shard_id, handle, now) is Answer,
{
}

} // verus!
