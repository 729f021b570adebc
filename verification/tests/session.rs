use rgbar::audio::pulse::{Client, ClientRequest, MainloopWaker};
use rgbar::audio::session::{
    backoff_delay_ms, connect_poll_decision, dispatch_request, drain_requests, iterate_decision,
    session_wait_decision, subscription_dispatch, ContextState, Facility, IntrospectOp,
    IterateOutcome, PollDecision, SessionAction, SessionEvent, SessionPhase, SessionState,
    WaitDecision,
};
use rgbar::audio::DeviceKind;

#[test]
fn backoff_is_100ms_then_5s() {
    for attempt in 1..=10u64 {
        assert_eq!(backoff_delay_ms(attempt), 100);
    }
    assert_eq!(backoff_delay_ms(11), 5000);
    assert_eq!(backoff_delay_ms(12), 5000);
    assert_eq!(backoff_delay_ms(1000), 5000);
}

#[test]
fn eleventh_consecutive_failure_schedules_5s() {
    let mut state = SessionState::initial();
    let (s, _) = state.step(SessionEvent::ConnectSucceeded);
    state = s;
    assert_eq!(state.phase, SessionPhase::Ready);

    let (s, action) = state.step(SessionEvent::ContextFailed);
    state = s;
    assert_eq!(state.phase, SessionPhase::Reconnecting);
    assert_eq!(action, SessionAction::ScheduleRetry(100));

    let mut last_action = action;
    for _ in 0..9 {
        let (s, action) = state.step(SessionEvent::ConnectFailed);
        state = s;
        last_action = action;
    }
    // Nine failures so far: the tenth attempt is still prompt.
    assert_eq!(state.failed_attempts, 9);
    assert_eq!(last_action, SessionAction::ScheduleRetry(100));

    let (s, action) = state.step(SessionEvent::ConnectFailed);
    state = s;
    assert_eq!(state.failed_attempts, 10);
    assert_eq!(action, SessionAction::ScheduleRetry(5000));

    // The eleventh consecutive failure keeps the long delay.
    let (s, action) = state.step(SessionEvent::ConnectFailed);
    state = s;
    assert_eq!(state.failed_attempts, 11);
    assert_eq!(action, SessionAction::ScheduleRetry(5000));

    // Success resets the schedule.
    let (s, _) = state.step(SessionEvent::ConnectSucceeded);
    assert_eq!(s.phase, SessionPhase::Ready);
    assert_eq!(s.failed_attempts, 0);
}

#[test]
fn startup_failure_stops_the_thread() {
    let state = SessionState::initial();
    let (s, action) = state.step(SessionEvent::ConnectFailed);
    assert_eq!(s.phase, SessionPhase::Stopped);
    assert_eq!(action, SessionAction::ReportStartupFailure);
}

#[test]
fn dead_queue_stops_the_thread() {
    let mut state = SessionState::initial();
    let (s, _) = state.step(SessionEvent::ConnectSucceeded);
    state = s;
    let (s, action) = state.step(SessionEvent::QueueDisconnected);
    assert_eq!(s.phase, SessionPhase::Stopped);
    assert_eq!(action, SessionAction::Stop);
}

#[test]
fn handshake_and_wait_decisions() {
    assert_eq!(connect_poll_decision(ContextState::Ready), PollDecision::Ready);
    assert_eq!(connect_poll_decision(ContextState::Failed), PollDecision::Fail);
    assert_eq!(connect_poll_decision(ContextState::Terminated), PollDecision::Fail);
    assert_eq!(connect_poll_decision(ContextState::Connecting), PollDecision::Continue);

    assert_eq!(session_wait_decision(ContextState::Ready), WaitDecision::Proceed);
    assert_eq!(session_wait_decision(ContextState::Failed), WaitDecision::Reconnect);
    // A terminated context inside a live session only keeps iterating.
    assert_eq!(session_wait_decision(ContextState::Terminated), WaitDecision::Keep);

    assert!(iterate_decision(IterateOutcome::Success).is_ok());
    assert!(iterate_decision(IterateOutcome::Quit).is_err());
    assert!(iterate_decision(IterateOutcome::Failure).is_err());
}

#[test]
fn requests_dispatch_to_matching_introspection_calls() {
    assert!(matches!(
        dispatch_request(ClientRequest::GetDefaultDevice),
        IntrospectOp::GetServerInfo
    ));
    match dispatch_request(ClientRequest::GetInfoByName(DeviceKind::Sink, "s".into())) {
        IntrospectOp::GetSinkInfoByName(name) => assert_eq!(name, "s"),
        other => panic!("unexpected op: {:?}", other),
    }
    match dispatch_request(ClientRequest::GetInfoByName(DeviceKind::Source, "m".into())) {
        IntrospectOp::GetSourceInfoByName(name) => assert_eq!(name, "m"),
        other => panic!("unexpected op: {:?}", other),
    }
    match dispatch_request(ClientRequest::SetVolumeByName(
        DeviceKind::Sink,
        "s".into(),
        vec![1, 2],
    )) {
        IntrospectOp::SetSinkVolumeByName(name, vols) => {
            assert_eq!(name, "s");
            assert_eq!(vols, vec![1, 2]);
        }
        other => panic!("unexpected op: {:?}", other),
    }
    match dispatch_request(ClientRequest::SetMuteByName(DeviceKind::Source, "m".into(), true)) {
        IntrospectOp::SetSourceMuteByName(name, mute) => {
            assert_eq!(name, "m");
            assert!(mute);
        }
        other => panic!("unexpected op: {:?}", other),
    }
}

#[test]
fn subscription_notifications_trigger_targeted_queries() {
    assert!(matches!(
        subscription_dispatch(Facility::Server, 7),
        Some(IntrospectOp::GetServerInfo)
    ));
    assert!(matches!(
        subscription_dispatch(Facility::Sink, 7),
        Some(IntrospectOp::GetSinkInfoByIndex(7))
    ));
    assert!(matches!(
        subscription_dispatch(Facility::Source, 9),
        Some(IntrospectOp::GetSourceInfoByIndex(9))
    ));
    assert!(subscription_dispatch(Facility::Other, 1).is_none());
}

#[test]
fn drain_maps_queued_requests_in_order() {
    let (tx, rx) = std::sync::mpsc::channel();
    let waker = MainloopWaker::new().unwrap();
    let client = Client::new(tx, waker);
    client.send(ClientRequest::GetDefaultDevice).unwrap();
    client
        .send(ClientRequest::GetInfoByName(DeviceKind::Sink, "s".into()))
        .unwrap();

    let outcome = drain_requests(&rx);
    assert!(!outcome.disconnected);
    assert_eq!(outcome.ops.len(), 2);
    assert!(matches!(outcome.ops[0], IntrospectOp::GetServerInfo));
    assert!(matches!(outcome.ops[1], IntrospectOp::GetSinkInfoByName(_)));

    drop(client);
    let outcome = drain_requests(&rx);
    assert!(outcome.disconnected);
    assert!(outcome.ops.is_empty());
}

#[test]
fn waker_byte_goes_through_the_pipe() {
    let waker = MainloopWaker::new().unwrap();
    waker.wake().unwrap();
    assert!(waker.read_fd() >= 0);
    waker.drain();
}
