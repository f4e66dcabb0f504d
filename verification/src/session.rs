//! The lifecycle of one gateway session.
//!
//! A session obtains a grant, connects, receives events and hands each to a
//! background task, and in the end closes its transport and waits for the
//! tasks that are still at work. Waiting, receiving and sending are done by
//! whoever drives the session; what to do next is decided here. The driver
//! asks the session what it waits for, performs that, and reports what came
//! of it as an event.

use vstd::prelude::*;

verus! {

/// The state of a session, as others see it.
#[derive(Clone, Copy, Debug, PartialEq, Eq, Structural)]
pub enum SessionState {
    /// Waiting for the grant to start a session.
    Connecting,
    /// Granted: opening the transport and identifying.
    Identifying,
    /// Identified, and receiving events.
    Connected,
    /// Shut down: closing the transport and waiting for tasks.
    Closing,
    /// Closed after a shutdown. Final.
    Disconnected,
    /// Ended by a fatal error. Final: no event leads out of it, though the
    /// session still closes its transport and waits for its tasks.
    Aborted,
}

/// Why receiving from the transport failed.
#[derive(Clone, Copy, Debug, PartialEq, Eq, Structural)]
pub enum ReceiveFailure {
    /// The gateway closed the session for a reason that no retry mends.
    FatallyClosed,
    /// The connection itself failed.
    Io,
    /// Anything else: a frame that could not be read or handled.
    Other,
}

impl ReceiveFailure {
    /// Only a session that the gateway closed for good has failed fatally.
    pub open spec fn spec_is_fatal(self) -> bool {
        self is FatallyClosed
    }

    /// Whether the session cannot go on after this failure.
    #[verifier::when_used_as_spec(spec_is_fatal)]
    pub fn is_fatal(self) -> (fatal: bool)
        ensures
            fatal == self.spec_is_fatal(),
    {
        match self {
            ReceiveFailure::FatallyClosed => true,
            _ => false,
        }
    }

    /// Whether the failure ends the drain of a closing transport: a broken
    /// connection has nothing more to deliver.
    pub open spec fn spec_ends_drain(self) -> bool {
        self is Io
    }

    /// Whether the failure ends the drain of a closing transport.
    #[verifier::when_used_as_spec(spec_ends_drain)]
    pub fn ends_drain(self) -> (ends: bool)
        ensures
            ends == self.spec_ends_drain(),
    {
        match self {
            ReceiveFailure::Io => true,
            _ => false,
        }
    }
}

/// The kinds of event that the session tells apart.
#[derive(Clone, Copy, Debug, PartialEq, Eq, Structural)]
pub enum EventKind {
    /// The gateway's greeting.
    Hello,
    /// The gateway's answer to a heartbeat.
    HeartbeatAck,
    /// Any other event.
    Other,
}

impl EventKind {
    /// The greeting and the heartbeat answers are the events by which the
    /// latency of the session is measured.
    pub open spec fn spec_measures_latency(self) -> bool {
        self is Hello || self is HeartbeatAck
    }

    /// Whether the latency of the session is to be recorded on this event.
    #[verifier::when_used_as_spec(spec_measures_latency)]
    pub fn measures_latency(self) -> (measures: bool)
        ensures
            measures == self.spec_measures_latency(),
    {
        match self {
            EventKind::Hello => true,
            EventKind::HeartbeatAck => true,
            EventKind::Other => false,
        }
    }
}

/// What the driver reports to the session.
#[derive(Clone, Copy, Debug, PartialEq, Eq, Structural)]
pub enum SessionEvent {
    /// The queue granted the session its start.
    GrantObtained,
    /// The transport is open and the session identified.
    ConnectSucceeded,
    /// Connecting failed for good.
    ConnectFailed,
    /// An event arrived.
    EventReceived(EventKind),
    /// Receiving an event failed.
    ReceiveFailed(ReceiveFailure),
    /// The shutdown signal fired.
    ShutdownSignaled,
    /// The transport was looked at: it is, or is not, disconnected already.
    TransportChecked { disconnected: bool },
    /// The closing frame was sent, or sending it failed.
    CloseAttempted,
    /// The closing transport delivered a message.
    MessageDrained,
    /// The closing transport failed to deliver.
    DrainFailed(ReceiveFailure),
    /// A background task finished.
    TaskFinished,
}

impl SessionEvent {
    /// The event reports that receiving failed for good.
    pub open spec fn fatal_failure(self) -> bool {
        match self {
            SessionEvent::ReceiveFailed(failure) => failure.is_fatal(),
            _ => false,
        }
    }

    /// The event reports that receiving failed, but not for good.
    pub open spec fn passing_failure(self) -> bool {
        match self {
            SessionEvent::ReceiveFailed(failure) => !failure.is_fatal(),
            _ => false,
        }
    }
}

/// What the session waits for. The driver performs it and reports the
/// outcome as an event.
#[derive(Clone, Copy, Debug, PartialEq, Eq, Structural)]
pub enum Wait {
    /// For the queue to grant the start of the session of this shard.
    Grant { shard_id: u64 },
    /// For the transport to open and the session to identify.
    Connect,
    /// For the next event, or the shutdown signal, whichever comes first.
    Event,
    /// For a look at the transport: is it disconnected already?
    TransportCheck,
    /// For the frame of a normal closure to be sent.
    Close,
    /// For the next message of the closing transport.
    Message,
    /// For a background task to finish.
    Task,
    /// For nothing: the session is complete.
    Nothing,
}

/// What the driver is to do at once on an event, before it goes on waiting.
#[derive(Clone, Copy, Debug, PartialEq, Eq, Structural)]
pub enum Effect {
    /// Hand the event just received to a new background task, and do not
    /// wait for it. The latency is to be recorded where `record_latency`
    /// says so.
    Dispatch { record_latency: bool },
    /// Signal the shutdown of the whole process.
    SignalShutdown,
}

/// The session, as contracts see it.
pub struct SessionModel {
    pub shard_id: u64,
    /// What the session waits for.
    pub wait: Wait,
    /// A fatal error ended the session.
    pub aborted: bool,
    /// The background tasks that were dispatched and have not finished.
    pub in_flight: nat,
}

impl SessionModel {
    pub open spec fn fresh(shard_id: u64) -> Self {
        SessionModel { shard_id, wait: Wait::Grant { shard_id }, aborted: false, in_flight: 0 }
    }

    /// A session waits for the grant of its own shard, aborts only into its
    /// closing sequence, waits for tasks only while there are some, and is
    /// complete only when there are none.
    pub open spec fn wf(self) -> bool {
        &&& self.wait matches Wait::Grant { shard_id } ==> shard_id == self.shard_id
        &&& self.aborted ==> self.closing() || self.wait is Nothing
        &&& self.wait is Task ==> self.in_flight > 0
        &&& self.wait is Nothing ==> self.in_flight == 0
    }

    /// The session is on its way: it has not begun to close.
    pub open spec fn running(self) -> bool {
        self.wait is Grant || self.wait is Connect || self.wait is Event
    }

    /// The session is in its closing sequence.
    pub open spec fn closing(self) -> bool {
        self.wait is TransportCheck || self.wait is Close || self.wait is Message
            || self.wait is Task
    }

    /// The session has returned control: nothing is left to wait for.
    pub open spec fn is_complete(self) -> bool {
        self.wait is Nothing
    }

    pub open spec fn state(self) -> SessionState {
        match self.wait {
            Wait::Grant { .. } => SessionState::Connecting,
            Wait::Connect => SessionState::Identifying,
            Wait::Event => SessionState::Connected,
            Wait::Nothing => if self.aborted {
                SessionState::Aborted
            } else {
                SessionState::Disconnected
            },
            _ => if self.aborted {
                SessionState::Aborted
            } else {
                SessionState::Closing
            },
        }
    }

    /// The session with its transport closed: it waits for its tasks if any
    /// is still at work, and is complete if none is.
    pub open spec fn drained(self) -> Self {
        SessionModel {
            wait: if self.in_flight > 0 {
                Wait::Task
            } else {
                Wait::Nothing
            },
            ..self
        }
    }

    /// The session at the start of its closing sequence.
    pub open spec fn shut_down(self) -> Self {
        SessionModel { wait: Wait::TransportCheck, ..self }
    }

    /// The session ended by a fatal error, at the start of its closing
    /// sequence.
    pub open spec fn abort(self) -> Self {
        SessionModel { wait: Wait::TransportCheck, aborted: true, ..self }
    }

    /// The session with one task less at work. Where that was the last one
    /// that a closed session waited for, the session is complete.
    pub open spec fn task_finished(self) -> Self {
        if self.in_flight == 0 {
            self
        } else {
            let left = (self.in_flight - 1) as nat;
            SessionModel {
                in_flight: left,
                wait: if self.wait is Task && left == 0 {
                    Wait::Nothing
                } else {
                    self.wait
                },
                ..self
            }
        }
    }

    /// What a session does on an event that is received, on a failure to
    /// receive, and on the shutdown signal is the same all the way until it
    /// closes: an event may arrive before the session has identified.
    pub open spec fn receive(self, event: SessionEvent) -> Self {
        match event {
            SessionEvent::EventReceived(_) => SessionModel {
                in_flight: self.in_flight + 1,
                ..self
            },
            SessionEvent::ReceiveFailed(failure) => if failure.is_fatal() {
                self.abort()
            } else {
                self
            },
            SessionEvent::ShutdownSignaled => self.shut_down(),
            _ => self,
        }
    }

    /// The session after an event. An event that the session does not wait
    /// for changes nothing, but that a task may finish at any time.
    pub open spec fn step(self, event: SessionEvent) -> Self {
        match (self.wait, event) {
            (_, SessionEvent::TaskFinished) => self.task_finished(),
            (Wait::Grant { .. }, SessionEvent::GrantObtained) => SessionModel {
                wait: Wait::Connect,
                ..self
            },
            (Wait::Connect, SessionEvent::ConnectSucceeded) => SessionModel {
                wait: Wait::Event,
                ..self
            },
            (Wait::Connect, SessionEvent::ConnectFailed) => self.abort(),
            (Wait::Grant { .. }, _) => self.receive(event),
            (Wait::Connect, _) => self.receive(event),
            (Wait::Event, _) => self.receive(event),
            (Wait::TransportCheck, SessionEvent::TransportChecked { disconnected }) => if disconnected {
                self.drained()
            } else {
                SessionModel { wait: Wait::Close, ..self }
            },
            (Wait::Close, SessionEvent::CloseAttempted) => SessionModel {
                wait: Wait::Message,
                ..self
            },
            (Wait::Message, SessionEvent::MessageDrained) => self.drained(),
            (Wait::Message, SessionEvent::DrainFailed(failure)) => if failure.ends_drain() {
                self.drained()
            } else {
                self
            },
            _ => self,
        }
    }

    /// What the driver is to do at once on an event.
    pub open spec fn effect(self, event: SessionEvent) -> Option<Effect> {
        if !self.running() {
            None
        } else {
            match event {
                SessionEvent::ConnectFailed => if self.wait is Connect {
                    Some(Effect::SignalShutdown)
                } else {
                    None
                },
                SessionEvent::EventReceived(kind) => Some(
                    Effect::Dispatch { record_latency: kind.measures_latency() },
                ),
                SessionEvent::ReceiveFailed(failure) => if failure.is_fatal() {
                    Some(Effect::SignalShutdown)
                } else {
                    None
                },
                _ => None,
            }
        }
    }

    /// The session after a run of events, the first of them first.
    pub open spec fn run(self, events: Seq<SessionEvent>) -> Self
        decreases events.len(),
    {
        if events.len() == 0 {
            self
        } else {
            self.run(events.drop_last()).step(events.last())
        }
    }
}

/// How many tasks a run of events reports as finished.
pub open spec fn finished_in(events: Seq<SessionEvent>) -> nat
    decreases events.len(),
{
    if events.len() == 0 {
        0
    } else {
        finished_in(events.drop_last()) + if events.last() is TaskFinished {
            1nat
        } else {
            0nat
        }
    }
}

/// One logical connection: its state, and the count of its background tasks
/// that are still at work.
pub struct SessionLifecycle {
    shard_id: u64,
    wait: Wait,
    aborted: bool,
    in_flight: usize,
}

impl View for SessionLifecycle {
    type V = SessionModel;

    closed spec fn view(&self) -> SessionModel {
        SessionModel {
            shard_id: self.shard_id,
            wait: self.wait,
            aborted: self.aborted,
            in_flight: self.in_flight as nat,
        }
    }
}

impl SessionLifecycle {
    /// The session's invariant, and that its tasks can be counted.
    pub open spec fn wf(&self) -> bool {
        &&& self@.wf()
        &&& self@.in_flight <= usize::MAX
    }

    /// A session for `shard_id` that has not begun: it waits for its grant.
    pub fn new(shard_id: u64) -> (session: Self)
        ensures
            session.wf(),
            session@ == SessionModel::fresh(shard_id),
    {
        SessionLifecycle { shard_id, wait: Wait::Grant { shard_id }, aborted: false, in_flight: 0 }
    }

    /// The shard that the session connects.
    pub fn shard_id(&self) -> (shard_id: u64)
        ensures
            shard_id == self@.shard_id,
    {
        self.shard_id
    }

    /// What the session waits for.
    pub fn awaits(&self) -> (wait: Wait)
        ensures
            wait == self@.wait,
    {
        self.wait
    }

    /// How many background tasks are still at work.
    pub fn in_flight(&self) -> (count: usize)
        ensures
            count == self@.in_flight,
    {
        self.in_flight
    }

    /// Whether the session has returned control.
    pub fn is_complete(&self) -> (complete: bool)
        ensures
            complete == self@.is_complete(),
    {
        match self.wait {
            Wait::Nothing => true,
            _ => false,
        }
    }

    /// The state of the session.
    pub fn state(&self) -> (state: SessionState)
        ensures
            state == self@.state(),
    {
        match self.wait {
            Wait::Grant { .. } => SessionState::Connecting,
            Wait::Connect => SessionState::Identifying,
            Wait::Event => SessionState::Connected,
            Wait::Nothing => if self.aborted {
                SessionState::Aborted
            } else {
                SessionState::Disconnected
            },
            _ => if self.aborted {
                SessionState::Aborted
            } else {
                SessionState::Closing
            },
        }
    }

    fn drain(&mut self)
        ensures
            final(self)@ == old(self)@.drained(),
    {
        if self.in_flight > 0 {
            self.wait = Wait::Task;
        } else {
            self.wait = Wait::Nothing;
        }
    }

    fn abort(&mut self)
        ensures
            final(self)@ == old(self)@.abort(),
    {
        self.wait = Wait::TransportCheck;
        self.aborted = true;
    }

    fn receive(&mut self, event: SessionEvent) -> (effect: Option<Effect>)
        requires
            old(self)@.running(),
            event is ConnectFailed ==> !(old(self)@.wait is Connect),
            event is EventReceived ==> old(self)@.in_flight < usize::MAX,
        ensures
            final(self)@ == old(self)@.receive(event),
            effect == old(self)@.effect(event),
    {
        match event {
            SessionEvent::EventReceived(kind) => {
                self.in_flight = self.in_flight + 1;
                Some(Effect::Dispatch { record_latency: kind.measures_latency() })
            },
            SessionEvent::ReceiveFailed(failure) => {
                if failure.is_fatal() {
                    self.abort();
                    Some(Effect::SignalShutdown)
                } else {
                    None
                }
            },
            SessionEvent::ShutdownSignaled => {
                self.wait = Wait::TransportCheck;
                None
            },
            _ => None,
        }
    }

    fn finish_task(&mut self)
        ensures
            final(self)@ == old(self)@.task_finished(),
    {
        if self.in_flight > 0 {
            self.in_flight = self.in_flight - 1;
            if self.in_flight == 0 {
                if let Wait::Task = self.wait {
                    self.wait = Wait::Nothing;
                }
            }
        }
    }

    /// Takes an event, and says what the driver is to do at once. What the
    /// session waits for afterwards is told by `awaits`.
    ///
    /// An event that is received is counted as a new task, so the count must
    /// have room for it.
    pub fn step(&mut self, event: SessionEvent) -> (effect: Option<Effect>)
        requires
            old(self).wf(),
            event is EventReceived ==> old(self)@.in_flight < usize::MAX,
        ensures
            final(self).wf(),
            final(self)@ == old(self)@.step(event),
            effect == old(self)@.effect(event),
    {
        proof {
            lemma_step_keeps_wf(self@, event);
        }
        match (self.wait, event) {
            (_, SessionEvent::TaskFinished) => {
                self.finish_task();
                None
            },
            (Wait::Grant { .. }, SessionEvent::GrantObtained) => {
                self.wait = Wait::Connect;
                None
            },
            (Wait::Connect, SessionEvent::ConnectSucceeded) => {
                self.wait = Wait::Event;
                None
            },
            (Wait::Connect, SessionEvent::ConnectFailed) => {
                self.abort();
                Some(Effect::SignalShutdown)
            },
            (Wait::Grant { .. }, _) => self.receive(event),
            (Wait::Connect, _) => self.receive(event),
            (Wait::Event, _) => self.receive(event),
            (Wait::TransportCheck, SessionEvent::TransportChecked { disconnected }) => {
                if disconnected {
                    self.drain();
                } else {
                    self.wait = Wait::Close;
                }
                None
            },
            (Wait::Close, SessionEvent::CloseAttempted) => {
                self.wait = Wait::Message;
                None
            },
            (Wait::Message, SessionEvent::MessageDrained) => {
                self.drain();
                None
            },
            (Wait::Message, SessionEvent::DrainFailed(failure)) => {
                if failure.ends_drain() {
                    self.drain();
                }
                None
            },
            _ => None,
        }
    }
}

/// Every event leaves a well-formed session well-formed, for the shard it
/// was made for.
pub proof fn lemma_step_keeps_wf(session: SessionModel, event: SessionEvent)
    requires
        session.wf(),
    ensures
        session.step(event).wf(),
        session.step(event).shard_id == session.shard_id,
{
}

/// Every run of events leaves a well-formed session well-formed.
pub proof fn lemma_run_keeps_wf(session: SessionModel, events: Seq<SessionEvent>)
    requires
        session.wf(),
    ensures
        session.run(events).wf(),
    decreases events.len(),
{
    if events.len() > 0 {
        lemma_run_keeps_wf(session, events.drop_last());
        lemma_step_keeps_wf(session.run(events.drop_last()), events.last());
    }
}

/// The state of a session moves only along the lifecycle: from connecting to
/// identifying to connected to closing to disconnected; and from any state
/// before closing to closing, on a shutdown, or to aborted, on a fatal
/// error.
pub open spec fn follows(before: SessionState, after: SessionState) -> bool {
    match before {
        SessionState::Connecting => after is Identifying || after is Closing || after is Aborted,
        SessionState::Identifying => after is Connected || after is Closing || after is Aborted,
        SessionState::Connected => after is Closing || after is Aborted,
        SessionState::Closing => after is Disconnected,
        SessionState::Disconnected => false,
        SessionState::Aborted => false,
    }
}

/// An event leaves the state of a session as it is, or moves it one step
/// along the lifecycle. No event leads out of a final state.
pub proof fn lemma_state_follows_lifecycle(session: SessionModel, event: SessionEvent)
    requires
        session.wf(),
    ensures
        session.step(event).state() == session.state() || follows(
            session.state(),
            session.step(event).state(),
        ),
        session.state() is Disconnected ==> session.step(event) == session,
        session.state() is Aborted ==> session.step(event).state() is Aborted,
{
}

/// A fatal error, and nothing else, aborts a session, and it signals the
/// shutdown of the process at the same time. A failure that is not fatal
/// changes nothing.
pub proof fn lemma_fatal_errors_abort(session: SessionModel, event: SessionEvent)
    requires
        session.wf(),
        !session.aborted,
    ensures
        session.step(event).aborted <==> (session.wait is Connect && event is ConnectFailed) || (
        session.running() && event.fatal_failure()),
        session.step(event).aborted ==> session.effect(event) == Some(Effect::SignalShutdown)
            && session.step(event).wait is TransportCheck,
        session.effect(event) == Some(Effect::SignalShutdown) ==> session.step(event).aborted,
        event.passing_failure() ==> session.step(event) == session && session.effect(event)
            is None,
{
}

/// Tasks are counted faithfully: a dispatch adds one task, a finished task
/// takes one away, and nothing else changes the count.
pub proof fn lemma_tasks_are_counted(session: SessionModel, event: SessionEvent)
    requires
        session.wf(),
    ensures
        session.effect(event) is Some && session.effect(event)->Some_0 is Dispatch
            <==> session.step(event).in_flight == session.in_flight + 1,
        session.step(event).in_flight < session.in_flight ==> event is TaskFinished
            && session.step(event).in_flight == session.in_flight - 1,
{
}

/// A session is complete only when none of its tasks is at work.
pub proof fn lemma_complete_means_no_task(session: SessionModel)
    requires
        session.wf(),
        session.is_complete(),
    ensures
        session.in_flight == 0,
        session.state() is Disconnected || session.state() is Aborted,
{
}

/// A session does not report completion before every task that it has
/// dispatched has finished: a run of events that leaves a session complete
/// reports at least as many finished tasks as were at work when the run
/// began. Where the transport stands does not matter.
pub proof fn lemma_completion_waits_for_tasks(session: SessionModel, events: Seq<SessionEvent>)
    requires
        session.wf(),
    ensures
        session.run(events).in_flight + finished_in(events) >= session.in_flight,
        session.run(events).is_complete() ==> finished_in(events) >= session.in_flight,
    decreases events.len(),
{
    lemma_run_keeps_wf(session, events);
    if events.len() > 0 {
        lemma_completion_waits_for_tasks(session, events.drop_last());
        lemma_run_keeps_wf(session, events.drop_last());
        lemma_tasks_are_counted(session.run(events.drop_last()), events.last());
    }
}

} // verus!
