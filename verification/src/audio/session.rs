use vstd::prelude::*;

verus! {

use crate::audio::DeviceKind;
use crate::audio::pulse::ClientRequest;
use crate::audio::pulse::PulseError;
use crate::audio::pulse::RecvOutcome;
use crate::audio::pulse::try_recv_request;

/// Delay, in milliseconds, before the given reconnect attempt after a
/// connection failure: attempts 1 through 10 wait 100 ms, every later
/// attempt waits 5000 ms.
pub fn backoff_delay_ms(attempt: u64) -> (delay: u64)
    requires
        attempt >= 1,
    ensures
        attempt <= 10 ==> delay == 100,
        attempt > 10 ==> delay == 5000,
{
    if attempt <= 10 {
        100
    } else {
        5000
    }
}

/// The protocol context's reported state, polled between loop passes.
#[derive(Debug, Clone, Copy, PartialEq, Eq, Structural)]
pub enum ContextState {
    Unconnected,
    Connecting,
    Authorizing,
    SettingName,
    Ready,
    Failed,
    Terminated,
}

/// What the connect handshake does with a freshly polled context state.
#[derive(Debug, Clone, Copy, PartialEq, Eq, Structural)]
pub enum PollDecision {
    /// The context is ready: the connection is established.
    Ready,
    /// The context failed or terminated: the whole connection attempt
    /// failed and must be retried from scratch.
    Fail,
    /// Still pending: keep iterating.
    Continue,
}

/// How the connect handshake reacts to each context state.
pub open spec fn connect_poll_spec(state: ContextState) -> PollDecision {
    match state {
        ContextState::Ready => PollDecision::Ready,
        ContextState::Failed => PollDecision::Fail,
        ContextState::Terminated => PollDecision::Fail,
        _ => PollDecision::Continue,
    }
}

/// One step of the connect handshake: poll the context state and decide
/// whether the connection is up, lost, or still pending.
pub fn connect_poll_decision(state: ContextState) -> (d: PollDecision)
    ensures
        d == connect_poll_spec(state),
{
    match state {
        ContextState::Ready => PollDecision::Ready,
        ContextState::Failed => PollDecision::Fail,
        ContextState::Terminated => PollDecision::Fail,
        _ => PollDecision::Continue,
    }
}

/// What the running session does with a freshly polled context state:
/// proceed to drain requests when ready, reconnect on failure, and keep
/// iterating otherwise.
#[derive(Debug, Clone, Copy, PartialEq, Eq, Structural)]
pub enum WaitDecision {
    Proceed,
    Reconnect,
    Keep,
}

/// How the running session reacts to each context state.
pub open spec fn session_wait_spec(state: ContextState) -> WaitDecision {
    match state {
        ContextState::Ready => WaitDecision::Proceed,
        ContextState::Failed => WaitDecision::Reconnect,
        _ => WaitDecision::Keep,
    }
}

/// One step of the session's blocking wait.
pub fn session_wait_decision(state: ContextState) -> (d: WaitDecision)
    ensures
        d == session_wait_spec(state),
{
    match state {
        ContextState::Ready => WaitDecision::Proceed,
        ContextState::Failed => WaitDecision::Reconnect,
        _ => WaitDecision::Keep,
    }
}

/// The outcome of driving one pass of the event loop.
#[derive(Debug, Clone, Copy, PartialEq, Eq, Structural)]
pub enum IterateOutcome {
    Success,
    Quit,
    Failure,
}

/// Classifies one loop pass: loop-quit and iterate-error are hard errors
/// that require a fresh connection.
pub fn iterate_decision(outcome: IterateOutcome) -> (r: Result<(), PulseError>)
    ensures
        r is Ok <==> outcome == IterateOutcome::Success,
        r is Err ==> r == Err::<(), PulseError>(PulseError::Iterate),
{
    match outcome {
        IterateOutcome::Success => Ok(()),
        IterateOutcome::Quit => Err(PulseError::Iterate),
        IterateOutcome::Failure => Err(PulseError::Iterate),
    }
}

/// One concrete call against the daemon's introspection interface.
#[derive(Debug)]
pub enum IntrospectOp {
    GetServerInfo,
    GetSinkInfoByName(String),
    GetSourceInfoByName(String),
    GetSinkInfoByIndex(u32),
    GetSourceInfoByIndex(u32),
    SetSinkVolumeByName(String, Vec<u32>),
    SetSourceVolumeByName(String, Vec<u32>),
    SetSinkMuteByName(String, bool),
    SetSourceMuteByName(String, bool),
}

/// The introspection call that executes one client request.
pub open spec fn dispatch_spec(req: ClientRequest) -> IntrospectOp {
    match req {
        ClientRequest::GetDefaultDevice => IntrospectOp::GetServerInfo,
        ClientRequest::GetInfoByName(DeviceKind::Sink, name) => IntrospectOp::GetSinkInfoByName(
            name,
        ),
        ClientRequest::GetInfoByName(DeviceKind::Source, name) => IntrospectOp::GetSourceInfoByName(
            name,
        ),
        ClientRequest::SetVolumeByName(DeviceKind::Sink, name, volumes) => IntrospectOp::SetSinkVolumeByName(
            name,
            volumes,
        ),
        ClientRequest::SetVolumeByName(DeviceKind::Source, name, volumes) => IntrospectOp::SetSourceVolumeByName(
            name,
            volumes,
        ),
        ClientRequest::SetMuteByName(DeviceKind::Sink, name, mute) => IntrospectOp::SetSinkMuteByName(
            name,
            mute,
        ),
        ClientRequest::SetMuteByName(DeviceKind::Source, name, mute) => IntrospectOp::SetSourceMuteByName(
            name,
            mute,
        ),
    }
}

/// Maps one queued request to the introspection call that executes it.
pub fn dispatch_request(req: ClientRequest) -> (op: IntrospectOp)
    ensures
        op == dispatch_spec(req),
{
    match req {
        ClientRequest::GetDefaultDevice => IntrospectOp::GetServerInfo,
        ClientRequest::GetInfoByName(DeviceKind::Sink, name) => IntrospectOp::GetSinkInfoByName(
            name,
        ),
        ClientRequest::GetInfoByName(DeviceKind::Source, name) => IntrospectOp::GetSourceInfoByName(
            name,
        ),
        ClientRequest::SetVolumeByName(DeviceKind::Sink, name, volumes) => IntrospectOp::SetSinkVolumeByName(
            name,
            volumes,
        ),
        ClientRequest::SetVolumeByName(DeviceKind::Source, name, volumes) => IntrospectOp::SetSourceVolumeByName(
            name,
            volumes,
        ),
        ClientRequest::SetMuteByName(DeviceKind::Sink, name, mute) => IntrospectOp::SetSinkMuteByName(
            name,
            mute,
        ),
        ClientRequest::SetMuteByName(DeviceKind::Source, name, mute) => IntrospectOp::SetSourceMuteByName(
            name,
            mute,
        ),
    }
}

/// The facility a subscription notification speaks about.
#[derive(Debug, Clone, Copy, PartialEq, Eq, Structural)]
pub enum Facility {
    Server,
    Sink,
    Source,
    Other,
}

/// The targeted query issued for one subscription notification.
pub open spec fn subscription_spec(facility: Facility, index: u32) -> Option<IntrospectOp> {
    match facility {
        Facility::Server => Some(IntrospectOp::GetServerInfo),
        Facility::Sink => Some(IntrospectOp::GetSinkInfoByIndex(index)),
        Facility::Source => Some(IntrospectOp::GetSourceInfoByIndex(index)),
        Facility::Other => None,
    }
}

/// On a server, sink or source change notification, issue the matching
/// targeted query; every other facility is ignored.
pub fn subscription_dispatch(facility: Facility, index: u32) -> (op: Option<IntrospectOp>)
    ensures
        op == subscription_spec(facility, index),
{
    match facility {
        Facility::Server => Some(IntrospectOp::GetServerInfo),
        Facility::Sink => Some(IntrospectOp::GetSinkInfoByIndex(index)),
        Facility::Source => Some(IntrospectOp::GetSourceInfoByIndex(index)),
        Facility::Other => None,
    }
}

/// The result of draining the request queue once.
pub struct DrainOutcome {
    /// Introspection calls to execute, in the order the requests were
    /// drained.
    pub ops: Vec<IntrospectOp>,
    /// True when every sending end is gone: the session must stop for
    /// good instead of reconnecting.
    pub disconnected: bool,
}

/// True of an introspection call that executes some client request.
pub open spec fn is_dispatch_op(op: IntrospectOp) -> bool {
    exists|req: ClientRequest| op == #[trigger] dispatch_spec(req)
}

/// Drains the inbound request queue without blocking and maps each
/// request to the introspection call that executes it.
pub fn drain_requests(rx: &std::sync::mpsc::Receiver<ClientRequest>) -> (r: DrainOutcome)
    ensures
        forall|i: int| 0 <= i < r.ops@.len() ==> is_dispatch_op(#[trigger] r.ops@[i]),
{
    let mut ops: Vec<IntrospectOp> = Vec::new();
    let mut budget: usize = usize::MAX;
    while budget > 0
        invariant
            forall|i: int| 0 <= i < ops@.len() ==> is_dispatch_op(#[trigger] ops@[i]),
        decreases budget,
    {
        match try_recv_request(rx) {
            RecvOutcome::Request(req) => {
                let ghost queued = req;
                let op = dispatch_request(req);
                proof {
                    assert(is_dispatch_op(op)) by {
                        assert(op == dispatch_spec(queued));
                    }
                }
                ops.push(op);
            },
            RecvOutcome::Empty => {
                return DrainOutcome { ops, disconnected: false };
            },
            RecvOutcome::Disconnected => {
                return DrainOutcome { ops, disconnected: true };
            },
        }
        budget = budget - 1;
    }
    DrainOutcome { ops, disconnected: false }
}

/// Where the worker thread's session currently stands.
#[derive(Debug, Clone, Copy, PartialEq, Eq, Structural)]
pub enum SessionPhase {
    /// The very first connection attempt is in flight.
    Connecting,
    /// A connection is up and subscribed; requests are being served.
    Ready,
    /// The connection was lost; reconnect attempts run under backoff.
    Reconnecting,
    /// The request queue is gone; the thread terminates.
    Stopped,
}

/// The worker thread's session state: its phase, and how many reconnect
/// attempts have failed in a row in the current outage.
#[derive(Debug, Clone, Copy, PartialEq, Eq, Structural)]
pub struct SessionState {
    pub phase: SessionPhase,
    pub failed_attempts: u64,
}

/// An event the worker thread observes.
#[derive(Debug, Clone, Copy, PartialEq, Eq, Structural)]
pub enum SessionEvent {
    /// A connection attempt succeeded.
    ConnectSucceeded,
    /// A connection attempt failed.
    ConnectFailed,
    /// The live context reported failure.
    ContextFailed,
    /// The request queue reported disconnection.
    QueueDisconnected,
}

/// What the worker thread must do next.
#[derive(Debug, Clone, Copy, PartialEq, Eq, Structural)]
pub enum SessionAction {
    /// Keep serving (or keep waiting) in the current phase.
    Idle,
    /// Sleep this many milliseconds, then attempt to reconnect.
    ScheduleRetry(u64),
    /// Report the startup failure to whoever asked for the client and
    /// terminate the thread.
    ReportStartupFailure,
    /// Terminate the thread for good.
    Stop,
}

/// The session lifecycle: a startup failure is fatal and surfaced to the
/// caller; a failure of a live session reconnects under backoff,
/// indefinitely, until an attempt succeeds; a dead request queue stops
/// the thread for good.
pub open spec fn session_step_spec(s: SessionState, e: SessionEvent) -> (SessionState,
    SessionAction) {
    match e {
        SessionEvent::ConnectSucceeded => (
            SessionState { phase: SessionPhase::Ready, failed_attempts: 0 },
            SessionAction::Idle,
        ),
        SessionEvent::ConnectFailed => match s.phase {
            SessionPhase::Connecting => (
                SessionState { phase: SessionPhase::Stopped, failed_attempts: 0 },
                SessionAction::ReportStartupFailure,
            ),
            SessionPhase::Reconnecting => {
                let n = if s.failed_attempts == 0xffff_ffff_ffff_ffffu64 {
                    s.failed_attempts
                } else {
                    (s.failed_attempts + 1) as u64
                };
                (
                    SessionState { phase: SessionPhase::Reconnecting, failed_attempts: n },
                    SessionAction::ScheduleRetry(if n + 1 <= 10 { 100u64 } else { 5000u64 }),
                )
            },
            _ => (s, SessionAction::Idle),
        },
        SessionEvent::ContextFailed => match s.phase {
            SessionPhase::Ready => (
                SessionState { phase: SessionPhase::Reconnecting, failed_attempts: 0 },
                SessionAction::ScheduleRetry(100),
            ),
            _ => (s, SessionAction::Idle),
        },
        SessionEvent::QueueDisconnected => (
            SessionState { phase: SessionPhase::Stopped, failed_attempts: 0 },
            SessionAction::Stop,
        ),
    }
}

impl SessionState {
    /// The state in which the worker thread starts: first connection
    /// attempt in flight, no failures yet.
    pub fn initial() -> (s: SessionState)
        ensures
            s == (SessionState { phase: SessionPhase::Connecting, failed_attempts: 0 }),
    {
        SessionState { phase: SessionPhase::Connecting, failed_attempts: 0 }
    }

    /// Advances the session by one observed event and says what to do.
    pub fn step(self, event: SessionEvent) -> (r: (SessionState, SessionAction))
        ensures
            r == session_step_spec(self, event),
    {
        match event {
            SessionEvent::ConnectSucceeded => (
                SessionState { phase: SessionPhase::Ready, failed_attempts: 0 },
                SessionAction::Idle,
            ),
            SessionEvent::ConnectFailed => match self.phase {
                SessionPhase::Connecting => (
                    SessionState { phase: SessionPhase::Stopped, failed_attempts: 0 },
                    SessionAction::ReportStartupFailure,
                ),
                SessionPhase::Reconnecting => {
                    let n: u64 = if self.failed_attempts == 0xffff_ffff_ffff_ffffu64 {
                        self.failed_attempts
                    } else {
                        self.failed_attempts + 1
                    };
                    let delay = backoff_delay_ms(if n == 0xffff_ffff_ffff_ffffu64 {
                        n
                    } else {
                        n + 1
                    });
                    (
                        SessionState { phase: SessionPhase::Reconnecting, failed_attempts: n },
                        SessionAction::ScheduleRetry(delay),
                    )
                },
                _ => (self, SessionAction::Idle),
            },
            SessionEvent::ContextFailed => match self.phase {
                SessionPhase::Ready => (
                    SessionState { phase: SessionPhase::Reconnecting, failed_attempts: 0 },
                    SessionAction::ScheduleRetry(100),
                ),
                _ => (self, SessionAction::Idle),
            },
            SessionEvent::QueueDisconnected => (
                SessionState { phase: SessionPhase::Stopped, failed_attempts: 0 },
                SessionAction::Stop,
            ),
        }
    }
}

} // verus!
