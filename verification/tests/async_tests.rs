use win_uds::async_uds::{
    cancel, interest_for, on_wake, poll_step, AsyncOp, Interest, OpState, PollDecision,
};
use win_uds::common::{wsa_error, Error, ErrorKind, WSAECONNABORTED, WSAEWOULDBLOCK};

#[test]
fn interest_follows_the_operation() {
    assert_eq!(interest_for(AsyncOp::Accept), Interest::Readable);
    assert_eq!(interest_for(AsyncOp::Read), Interest::Readable);
    assert_eq!(interest_for(AsyncOp::Write), Interest::Writable);
}

#[test]
fn success_completes_and_goes_idle() {
    let (state, decision) = poll_step(AsyncOp::Read, Ok::<usize, Error>(17));
    assert_eq!(state, OpState::Idle);
    assert!(matches!(decision, PollDecision::Complete(17)));
}

#[test]
fn would_block_suspends_on_read_readiness() {
    let attempt: Result<usize, Error> = Err(wsa_error(WSAEWOULDBLOCK));
    let (state, decision) = poll_step(AsyncOp::Accept, attempt);
    assert_eq!(state, OpState::AwaitingReadiness(Interest::Readable));
    assert!(matches!(decision, PollDecision::Suspend(Interest::Readable)));
}

#[test]
fn would_block_suspends_on_write_readiness() {
    let attempt: Result<usize, Error> = Err(wsa_error(WSAEWOULDBLOCK));
    let (state, decision) = poll_step(AsyncOp::Write, attempt);
    assert_eq!(state, OpState::AwaitingReadiness(Interest::Writable));
    assert!(matches!(decision, PollDecision::Suspend(Interest::Writable)));
}

#[test]
fn other_failures_surface_unchanged() {
    let attempt: Result<usize, Error> = Err(wsa_error(WSAECONNABORTED));
    let (state, decision) = poll_step(AsyncOp::Read, attempt);
    assert_eq!(state, OpState::Idle);
    match decision {
        PollDecision::Fail(e) => {
            assert_eq!(e.kind, ErrorKind::ConnectionAborted);
            assert_eq!(e.code, Some(WSAECONNABORTED));
        }
        _ => panic!("expected the failure to surface"),
    }
}

#[test]
fn wake_always_retries() {
    assert_eq!(on_wake(OpState::AwaitingReadiness(Interest::Readable)), OpState::Idle);
    assert_eq!(on_wake(OpState::Idle), OpState::Idle);
}

#[test]
fn cancel_deregisters_only_awaited_interest() {
    assert_eq!(cancel(OpState::AwaitingReadiness(Interest::Writable)), Some(Interest::Writable));
    assert_eq!(cancel(OpState::Idle), None);
}
