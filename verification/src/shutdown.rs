//! The shutdown coordinator: one signal for the whole process.
//!
//! The signal fires once. Whoever wants to be told of it leaves a handle,
//! and the first call of `signal` hands all handles back to be resumed.
//! Suspending and resuming are done by whoever drives the coordinator.

use vstd::prelude::*;

verus! {

/// Why the process shuts down.
#[derive(Clone, Copy, Debug, PartialEq, Eq, Structural)]
pub enum ShutdownReason {
    /// A session failed for good.
    FatalShardError,
    /// The operating system asked the process to end.
    SignalReceived,
    /// The metrics server failed.
    MetricsServerFailed,
}

impl ShutdownReason {
    /// The reason in words, for the log.
    pub fn message(self) -> (text: &'static str)
        ensures
            text@ == (match self {
                ShutdownReason::FatalShardError => "Fatal error given from a shard"@,
                ShutdownReason::SignalReceived => "Received shutdown signal"@,
                ShutdownReason::MetricsServerFailed => "Received metrics server fatal error"@,
            }),
    {
        match self {
            ShutdownReason::FatalShardError => "Fatal error given from a shard",
            ShutdownReason::SignalReceived => "Received shutdown signal",
            ShutdownReason::MetricsServerFailed => "Received metrics server fatal error",
        }
    }

    /// The reason to shut down with once the metrics server has stopped: its
    /// failure if it failed, else the signal that stopped it.
    pub fn after_metrics_server(failed: bool) -> (reason: ShutdownReason)
        ensures
            reason == (if failed {
                ShutdownReason::MetricsServerFailed
            } else {
                ShutdownReason::SignalReceived
            }),
    {
        if failed {
            ShutdownReason::MetricsServerFailed
        } else {
            ShutdownReason::SignalReceived
        }
    }
}

/// The coordinator, as contracts see it.
pub struct CoordinatorModel<T> {
    /// The reason of the signal, once it has fired.
    pub reason: Option<ShutdownReason>,
    /// The handles of those that wait for the signal, in the order in which
    /// they came.
    pub waiters: Seq<T>,
}

impl<T> CoordinatorModel<T> {
    pub open spec fn fresh() -> Self {
        CoordinatorModel { reason: None, waiters: Seq::empty() }
    }

    pub open spec fn is_signaled(self) -> bool {
        self.reason is Some
    }

    /// Nobody waits for a signal that has fired.
    pub open spec fn wf(self) -> bool {
        self.is_signaled() ==> self.waiters.len() == 0
    }

    /// The coordinator after a call of `signal`: the first call fires the
    /// signal and lets all waiters go, a later one changes nothing.
    pub open spec fn signal(self, reason: ShutdownReason) -> Self {
        if self.is_signaled() {
            self
        } else {
            CoordinatorModel { reason: Some(reason), waiters: Seq::empty() }
        }
    }

    /// The waiters that a call of `signal` wakes: all of them at the first
    /// call, none at a later one.
    pub open spec fn woken(self) -> Seq<T> {
        if self.is_signaled() {
            Seq::empty()
        } else {
            self.waiters
        }
    }

    /// The coordinator after somebody came to wait: the handle is kept
    /// unless the signal has fired already.
    pub open spec fn wait(self, handle: T) -> Self {
        if self.is_signaled() {
            self
        } else {
            CoordinatorModel { reason: self.reason, waiters: self.waiters.push(handle) }
        }
    }
}

/// What happens to a coordinator.
pub enum CoordinatorEvent<T> {
    /// Somebody comes to wait, and leaves this handle.
    Wait(T),
    /// `signal` is called with this reason.
    Signal(ShutdownReason),
}

impl<T> CoordinatorModel<T> {
    /// The coordinator after one event.
    pub open spec fn step(self, event: CoordinatorEvent<T>) -> Self {
        match event {
            CoordinatorEvent::Wait(handle) => self.wait(handle),
            CoordinatorEvent::Signal(reason) => self.signal(reason),
        }
    }

    /// The coordinator after a run of events, the first of them first.
    pub open spec fn run(self, events: Seq<CoordinatorEvent<T>>) -> Self
        decreases events.len(),
    {
        if events.len() == 0 {
            self
        } else {
            self.run(events.drop_last()).step(events.last())
        }
    }

    /// The handles that a run of events leaves with the coordinator: those
    /// of all who came before the signal fired, in their order.
    pub open spec fn left(self, events: Seq<CoordinatorEvent<T>>) -> Seq<T>
        decreases events.len(),
    {
        if events.len() == 0 {
            Seq::empty()
        } else {
            let earlier = self.left(events.drop_last());
            match events.last() {
                CoordinatorEvent::Wait(handle) => if self.run(events.drop_last()).is_signaled() {
                    earlier
                } else {
                    earlier.push(handle)
                },
                CoordinatorEvent::Signal(_) => earlier,
            }
        }
    }

    /// The handles that the calls of `signal` in a run of events hand back,
    /// in their order.
    pub open spec fn handed_back(self, events: Seq<CoordinatorEvent<T>>) -> Seq<T>
        decreases events.len(),
    {
        if events.len() == 0 {
            Seq::empty()
        } else {
            let earlier = self.handed_back(events.drop_last());
            match events.last() {
                CoordinatorEvent::Wait(_) => earlier,
                CoordinatorEvent::Signal(_) => earlier + self.run(events.drop_last()).woken(),
            }
        }
    }
}

/// What a call of `signal` did.
pub enum Signaled<T> {
    /// The signal fired now. These waited for it and are to be resumed, in
    /// the order in which they came.
    Fired(Vec<T>),
    /// The signal had fired before: the call changed nothing.
    Ignored,
}

/// A signal that fires once and is seen by all.
pub struct ShutdownCoordinator<T> {
    reason: Option<ShutdownReason>,
    waiters: Vec<T>,
}

impl<T> View for ShutdownCoordinator<T> {
    type V = CoordinatorModel<T>;

    closed spec fn view(&self) -> CoordinatorModel<T> {
        CoordinatorModel { reason: self.reason, waiters: self.waiters@ }
    }
}

impl<T> ShutdownCoordinator<T> {
    /// The coordinator's invariant: nobody waits for a signal that has
    /// fired.
    pub open spec fn wf(&self) -> bool {
        self@.wf()
    }

    /// A coordinator whose signal has not fired.
    pub fn new() -> (coordinator: Self)
        ensures
            coordinator.wf(),
            coordinator@ == CoordinatorModel::<T>::fresh(),
    {
        ShutdownCoordinator { reason: None, waiters: Vec::new() }
    }

    /// Whether the signal has fired.
    pub fn is_signaled(&self) -> (signaled: bool)
        ensures
            signaled == self@.is_signaled(),
    {
        self.reason.is_some()
    }

    /// The reason that the signal fired with, if it has fired.
    pub fn reason(&self) -> (reason: Option<ShutdownReason>)
        ensures
            reason == self@.reason,
    {
        self.reason
    }

    /// How many wait for the signal.
    pub fn waiting(&self) -> (count: usize)
        ensures
            count == self@.waiters.len(),
    {
        self.waiters.len()
    }

    /// Fires the signal. The first call keeps its reason and hands back all
    /// who wait; any later call does nothing, and says so.
    pub fn signal(&mut self, reason: ShutdownReason) -> (outcome: Signaled<T>)
        requires
            old(self).wf(),
        ensures
            final(self).wf(),
            final(self)@ == old(self)@.signal(reason),
            final(self)@.is_signaled(),
            old(self)@.is_signaled() <==> outcome is Ignored,
            outcome matches Signaled::Fired(woken) ==> woken@ == old(self)@.woken(),
    {
        if self.reason.is_some() {
            return Signaled::Ignored;
        }
        self.reason = Some(reason);
        let mut woken: Vec<T> = Vec::new();
        core::mem::swap(&mut woken, &mut self.waiters);
        Signaled::Fired(woken)
    }

    /// Comes to wait for the signal. If it has fired already the handle
    /// comes straight back, to be resumed at once; otherwise it is kept
    /// until the signal fires.
    pub fn await_signal(&mut self, handle: T) -> (resumed: Option<T>)
        requires
            old(self).wf(),
        ensures
            final(self).wf(),
            final(self)@ == old(self)@.wait(handle),
            resumed == (if old(self)@.is_signaled() {
                Some(handle)
            } else {
                None
            }),
    {
        if self.reason.is_some() {
            Some(handle)
        } else {
            self.waiters.push(handle);
            None
        }
    }
}

/// To signal twice is to signal once: the second call changes nothing, wakes
/// nobody, and leaves the reason of the first. The first call wakes exactly
/// those who waited, each of them once.
pub proof fn lemma_signal_is_idempotent<T>(
    coordinator: CoordinatorModel<T>,
    first: ShutdownReason,
    second: ShutdownReason,
)
    requires
        coordinator.wf(),
    ensures
        coordinator.signal(first).signal(second) == coordinator.signal(first),
        coordinator.signal(first).woken() == Seq::<T>::empty(),
        coordinator.signal(first).is_signaled(),
        !coordinator.is_signaled() ==> coordinator.woken() == coordinator.waiters
            && coordinator.signal(first).reason == Some(first),
        coordinator.signal(first).wf(),
{
}

/// However often `signal` is called, and whenever, everybody who came to
/// wait before the signal fired is woken once: the handles that were handed
/// back, followed by those that are still kept, are the handles that were
/// there or were left, each once and in its order. Once the signal has fired
/// none is kept, so all were handed back.
pub proof fn lemma_everyone_is_woken_once<T>(
    coordinator: CoordinatorModel<T>,
    events: Seq<CoordinatorEvent<T>>,
)
    requires
        coordinator.wf(),
    ensures
        coordinator.run(events).wf(),
        coordinator.waiters + coordinator.left(events) == coordinator.handed_back(events)
            + coordinator.run(events).waiters,
        coordinator.run(events).is_signaled() ==> coordinator.handed_back(events)
            == coordinator.waiters + coordinator.left(events),
        coordinator.is_signaled() ==> coordinator.run(events) == coordinator,
    decreases events.len(),
{
    let waited = coordinator.waiters;
    if events.len() == 0 {
        assert(waited + coordinator.left(events) =~= coordinator.handed_back(events) + waited);
        if coordinator.is_signaled() {
            assert(coordinator.handed_back(events) =~= waited + coordinator.left(events));
        }
    } else {
        let earlier = events.drop_last();
        let before = coordinator.run(earlier);
        lemma_everyone_is_woken_once(coordinator, earlier);
        let left = coordinator.left(earlier);
        let back = coordinator.handed_back(earlier);
        assert(waited + left == back + before.waiters);
        match events.last() {
            CoordinatorEvent::Wait(handle) => {
                if !before.is_signaled() {
                    assert(waited + left.push(handle) =~= (waited + left).push(handle));
                    assert(back + before.waiters.push(handle) =~= (back + before.waiters).push(
                        handle,
                    ));
                }
            },
            CoordinatorEvent::Signal(_) => {
                if before.is_signaled() {
                    assert(back + before.woken() =~= back);
                } else {
                    assert((back + before.woken()) + Seq::<T>::empty() =~= back + before.waiters);
                }
            },
        }
        if coordinator.run(events).is_signaled() {
            assert(coordinator.handed_back(events) + coordinator.run(events).waiters
                =~= coordinator.handed_back(events));
        }
    }
}

/// Nobody misses the signal: who came before it is woken by it, and who
/// comes after it is not kept waiting.
pub proof fn lemma_waiters_are_woken<T>(
    coordinator: CoordinatorModel<T>,
    handle: T,
    reason: ShutdownReason,
)
    requires
        coordinator.wf(),
        !coordinator.is_signaled(),
    ensures
        coordinator.wait(handle).woken() == coordinator.waiters.push(handle),
        coordinator.wait(handle).woken().contains(handle),
        coordinator.signal(reason).wait(handle) == coordinator.signal(reason),
        coordinator.wait(handle).wf(),
{
    let waiters = coordinator.waiters.push(handle);
    assert(waiters[waiters.len() - 1] == handle);
}

} // verus!
