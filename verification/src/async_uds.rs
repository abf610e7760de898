//! The decision logic of the readiness-driven non-blocking adaptor.
//!
//! The adaptor wraps a listener or stream placed in non-blocking mode.
//! Each operation attempts the underlying primitive call; the functions
//! here decide, from the attempt's portable result alone, whether the
//! operation is complete, must suspend until a readiness event and
//! which event that is, or has failed.  The unverified shell runs the
//! retry loop: it performs the attempt, follows the decision, and on a
//! wake — which may be spurious — simply attempts again.

use vstd::prelude::*;

use crate::common::{Error, ErrorKind};

verus! {

/// The readiness event a suspended operation registers interest in.
#[derive(Clone, Copy, Debug, PartialEq, Eq, Structural)]
pub enum Interest {
    Readable,
    Writable,
}

/// The operations the adaptor drives.
#[derive(Clone, Copy, Debug, PartialEq, Eq, Structural)]
pub enum AsyncOp {
    Accept,
    Read,
    Write,
}

/// The readiness event that can unblock each operation: read-readiness
/// for accept and read, write-readiness for write.
pub open spec fn interest_of(op: AsyncOp) -> Interest {
    match op {
        AsyncOp::Accept => Interest::Readable,
        AsyncOp::Read => Interest::Readable,
        AsyncOp::Write => Interest::Writable,
    }
}

/// Maps an operation to the readiness event it waits for.
pub fn interest_for(op: AsyncOp) -> (r: Interest)
    ensures
        r == interest_of(op),
{
    match op {
        AsyncOp::Accept => Interest::Readable,
        AsyncOp::Read => Interest::Readable,
        AsyncOp::Write => Interest::Writable,
    }
}

/// The progress state of one pending operation: idle between attempts,
/// or suspended awaiting a readiness event.
#[derive(Clone, Copy, Debug, PartialEq, Eq, Structural)]
pub enum OpState {
    Idle,
    AwaitingReadiness(Interest),
}

/// What the shell must do after one attempt.
pub enum PollDecision<T> {
    Complete(T),
    Suspend(Interest),
    Fail(Error),
}

/// The adaptor's one rule, as a function of the attempt's result: a
/// success completes the operation; a would-block failure suspends it
/// on the operation's own readiness event; any other failure is
/// surfaced unchanged.
pub open spec fn poll_outcome<T>(op: AsyncOp, attempt: Result<T, Error>) -> (OpState, PollDecision<
    T,
>) {
    match attempt {
        Ok(v) => (OpState::Idle, PollDecision::Complete(v)),
        Err(e) => if e.kind == ErrorKind::WouldBlock {
            (OpState::AwaitingReadiness(interest_of(op)), PollDecision::Suspend(interest_of(op)))
        } else {
            (OpState::Idle, PollDecision::Fail(e))
        },
    }
}

/// Advances one pending operation by the result of one attempt of the
/// underlying primitive call.
pub fn poll_step<T>(op: AsyncOp, attempt: Result<T, Error>) -> (r: (OpState, PollDecision<T>))
    ensures
        r == poll_outcome(op, attempt),
{
    match attempt {
        Ok(v) => (OpState::Idle, PollDecision::Complete(v)),
        Err(e) => {
            if e.kind == ErrorKind::WouldBlock {
                let interest = interest_for(op);
                (OpState::AwaitingReadiness(interest), PollDecision::Suspend(interest))
            } else {
                (OpState::Idle, PollDecision::Fail(e))
            }
        },
    }
}

/// A readiness notification, spurious or not, moves the operation back
/// to idle: the shell's only move after a wake is to attempt the
/// primitive call again, never to trust the notification itself.
pub fn on_wake(_state: OpState) -> (r: OpState)
    ensures
        r is Idle,
{
    OpState::Idle
}

/// The interest a dropped in-flight operation must deregister: exactly
/// the event it was awaiting, and nothing when it was idle.  No further
/// native call follows.
pub fn cancel(state: OpState) -> (r: Option<Interest>)
    ensures
        state matches OpState::AwaitingReadiness(i) ==> r == Some(i),
        state is Idle ==> r is None,
{
    match state {
        OpState::AwaitingReadiness(i) => Some(i),
        OpState::Idle => None,
    }
}

/// A non-blocking attempt with nothing ready never blocks the caller
/// and never surfaces a failure of a different kind: a would-block
/// result always becomes a suspension on the operation's own readiness
/// event, a success always completes with its value, and every other
/// failure is surfaced as exactly the failure it was.
pub proof fn lemma_would_block_suspends<T>(op: AsyncOp, attempt: Result<T, Error>)
    ensures
        attempt matches Err(e) ==> {
            &&& e.kind == ErrorKind::WouldBlock ==> poll_outcome(op, attempt) == (
                OpState::AwaitingReadiness(interest_of(op)),
                PollDecision::<T>::Suspend(interest_of(op)),
            )
            &&& e.kind != ErrorKind::WouldBlock ==> poll_outcome(op, attempt) == (
                OpState::Idle,
                PollDecision::<T>::Fail(e),
            )
        },
        attempt matches Ok(v) ==> poll_outcome(op, attempt) == (
            OpState::Idle,
            PollDecision::<T>::Complete(v),
        ),
{
}

} // verus!
