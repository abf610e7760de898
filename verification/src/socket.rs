//! The socket primitive's decision logic: interpretation of the raw
//! results of the native socket calls, the handle lifecycle state
//! machine, and the shared-ownership model of duplicated handles.
//!
//! The native calls report failure through sentinel return values and a
//! thread-local error code; the unverified shell makes the calls and
//! hands both in as plain values, and the functions here turn them into
//! the portable results the library promises.

use vstd::prelude::*;

use crate::common::{wsa_error, is_translation_of, Error, ErrorKind};

verus! {

/// The sentinel return value by which most native socket calls report
/// failure.
pub const SOCKET_ERROR: i32 = -1;

/// The sentinel handle by which native socket allocation reports
/// failure.
pub const INVALID_SOCKET: u64 = u64::MAX;

/// The direction argument of a shutdown, as callers give it.
#[derive(Clone, Copy, Debug, PartialEq, Eq, Structural)]
pub enum Shutdown {
    Read,
    Write,
    Both,
}

/// The native encoding of a read-direction shutdown.
pub const SD_RECEIVE: i32 = 0;

/// The native encoding of a write-direction shutdown.
pub const SD_SEND: i32 = 1;

/// The native encoding of a both-direction shutdown.
pub const SD_BOTH: i32 = 2;

/// Maps a shutdown direction to the constant the native call takes.
pub fn shutdown_how(how: Shutdown) -> (r: i32)
    ensures
        how is Read ==> r == SD_RECEIVE,
        how is Write ==> r == SD_SEND,
        how is Both ==> r == SD_BOTH,
{
    match how {
        Shutdown::Read => SD_RECEIVE,
        Shutdown::Write => SD_SEND,
        Shutdown::Both => SD_BOTH,
    }
}

/// Interprets the handle returned by native socket allocation or
/// accept: the sentinel handle means the call failed and the
/// thread-local code `code` describes why.
pub fn socket_result(handle: u64, code: i32) -> (r: Result<u64, Error>)
    ensures
        handle != INVALID_SOCKET ==> r == Ok::<u64, Error>(handle),
        handle == INVALID_SOCKET ==> (r matches Err(e) && is_translation_of(e, code)),
{
    if handle == INVALID_SOCKET {
        Err(wsa_error(code))
    } else {
        Ok(handle)
    }
}

/// Interprets the raw return of a native send: a nonnegative value is
/// the number of bytes transferred, which may fall short of the number
/// requested, and the sentinel is a failure described by `code`.
pub fn send_result(ret: i32, code: i32) -> (r: Result<usize, Error>)
    requires
        ret >= SOCKET_ERROR,
    ensures
        ret >= 0 ==> r == Ok::<usize, Error>(ret as usize),
        ret == SOCKET_ERROR ==> (r matches Err(e) && is_translation_of(e, code)),
{
    if ret == SOCKET_ERROR {
        Err(wsa_error(code))
    } else {
        Ok(ret as usize)
    }
}

/// What a receive that transferred zero bytes reports: the peer closed
/// the connection in the read direction.  This is a condition of its
/// own, never folded into an ordinary empty transfer, so that callers
/// cannot mistake it for "no data yet".
pub open spec fn is_peer_closed(e: Error) -> bool {
    &&& e.kind == ErrorKind::Other
    &&& e.description@ == "Connection closed"@
    &&& e.code is None
}

/// Interprets the raw return of a native receive: a positive value is a
/// partial transfer, zero means the peer closed the connection and is
/// surfaced as the distinct peer-closed condition, and the sentinel is
/// a failure described by `code`.
pub fn recv_result(ret: i32, code: i32) -> (r: Result<usize, Error>)
    requires
        ret >= SOCKET_ERROR,
    ensures
        ret > 0 ==> r == Ok::<usize, Error>(ret as usize),
        ret == 0 ==> (r matches Err(e) && is_peer_closed(e)),
        ret == SOCKET_ERROR ==> (r matches Err(e) && is_translation_of(e, code)),
{
    if ret == 0 {
        Err(Error { kind: ErrorKind::Other, description: "Connection closed", code: None })
    } else if ret == SOCKET_ERROR {
        Err(wsa_error(code))
    } else {
        Ok(ret as usize)
    }
}

/// Interprets the raw return of a native call that only reports status,
/// such as a shutdown, an option change or a mode change: the sentinel
/// is a failure described by `code`, everything else is success.
pub fn status_result(ret: i32, code: i32) -> (r: Result<(), Error>)
    ensures
        ret != SOCKET_ERROR ==> r is Ok,
        ret == SOCKET_ERROR ==> (r matches Err(e) && is_translation_of(e, code)),
{
    if ret == SOCKET_ERROR {
        Err(wsa_error(code))
    } else {
        Ok(())
    }
}

/// Interprets a drained pending-error query: `ret` is the raw return of
/// the option read itself, `pending` the drained per-socket error slot.
/// A zero slot means no pending error; a nonzero one is translated like
/// any other native failure, without closing the socket.
pub fn take_error_result(ret: i32, pending: i32, code: i32) -> (r: Result<Option<Error>, Error>)
    ensures
        ret == SOCKET_ERROR ==> (r matches Err(e) && is_translation_of(e, code)),
        ret != SOCKET_ERROR && pending == 0 ==> r == Ok::<Option<Error>, Error>(None),
        ret != SOCKET_ERROR && pending != 0 ==> (r matches Ok(Some(e))
            && is_translation_of(e, pending)),
{
    if ret == SOCKET_ERROR {
        Err(wsa_error(code))
    } else if pending == 0 {
        Ok(None)
    } else {
        Ok(Some(wsa_error(pending)))
    }
}

/// The value the native mode change takes for a non-blocking or
/// blocking socket.
pub fn nonblocking_mode(nonblocking: bool) -> (r: u32)
    ensures
        nonblocking ==> r == 1u32,
        !nonblocking ==> r == 0u32,
{
    if nonblocking {
        1
    } else {
        0
    }
}

/// The level under which the per-socket options live.
pub const SOL_SOCKET: i32 = 65535;

/// The native option holding the receive timeout.
pub const SO_RCVTIMEO: i32 = 4102;

/// The native option holding the send timeout.
pub const SO_SNDTIMEO: i32 = 4101;

/// A transfer direction, as the per-direction timeout options name one.
#[derive(Clone, Copy, Debug, PartialEq, Eq, Structural)]
pub enum Direction {
    Read,
    Write,
}

/// Maps a timeout direction to the native option it is stored under.
pub fn timeout_option(direction: Direction) -> (r: i32)
    ensures
        direction is Read ==> r == SO_RCVTIMEO,
        direction is Write ==> r == SO_SNDTIMEO,
{
    match direction {
        Direction::Read => SO_RCVTIMEO,
        Direction::Write => SO_SNDTIMEO,
    }
}

/// The millisecond value handed to the native timeout option: an absent
/// duration means "block indefinitely", which the native option spells
/// as zero, and a present one is its whole-millisecond count, truncated
/// to the option's width.
pub fn timeout_param(dur_millis: Option<u128>) -> (r: u32)
    ensures
        dur_millis matches Some(ms) ==> r == ms as u32,
        dur_millis is None ==> r == 0u32,
{
    match dur_millis {
        Some(ms) => #[verifier::truncate] (ms as u32),
        None => 0,
    }
}

/// Interprets a timeout-option read: the sentinel is a failure
/// described by `code`; otherwise the read value is the configured
/// timeout in milliseconds, where the native option spells an absent
/// timeout — block indefinitely — as zero, reported back as `None`.
pub fn timeout_result(ret: i32, millis: i32, code: i32) -> (r: Result<Option<u64>, Error>)
    requires
        millis >= 0,
    ensures
        ret == SOCKET_ERROR ==> (r matches Err(e) && is_translation_of(e, code)),
        ret != SOCKET_ERROR && millis == 0 ==> r == Ok::<Option<u64>, Error>(None),
        ret != SOCKET_ERROR && millis > 0 ==> r == Ok::<Option<u64>, Error>(Some(millis as u64)),
{
    if ret == SOCKET_ERROR {
        Err(wsa_error(code))
    } else if millis == 0 {
        Ok(None)
    } else {
        Ok(Some(millis as u64))
    }
}

/// The lifecycle state of one socket primitive.
#[derive(Clone, Copy, Debug, PartialEq, Eq, Structural)]
pub enum SocketState {
    Created,
    Bound,
    Listening,
    Connected,
    Closed,
}

/// The state-changing operations of the lifecycle machine.
#[derive(Clone, Copy, Debug, PartialEq, Eq, Structural)]
pub enum SocketOp {
    Bind,
    Listen,
    Connect,
    Accept,
    Close,
}

/// Which operations the machine allows in which state: bind only on a
/// fresh socket, listen only on a bound one, connect only on a fresh
/// one, accept only on a listening one, and close anywhere.
pub open spec fn op_allowed(s: SocketState, op: SocketOp) -> bool {
    match op {
        SocketOp::Bind => s is Created,
        SocketOp::Listen => s is Bound,
        SocketOp::Connect => s is Created,
        SocketOp::Accept => s is Listening,
        SocketOp::Close => true,
    }
}

/// The state an allowed operation leads to.  Accepting leaves the
/// listener listening — the new connection gets a primitive of its own
/// — and close is terminal.
pub open spec fn next_state(s: SocketState, op: SocketOp) -> SocketState
    recommends
        op_allowed(s, op),
{
    match op {
        SocketOp::Bind => SocketState::Bound,
        SocketOp::Listen => SocketState::Listening,
        SocketOp::Connect => SocketState::Connected,
        SocketOp::Accept => SocketState::Listening,
        SocketOp::Close => SocketState::Closed,
    }
}

/// Advances the lifecycle machine by one operation.  An operation that
/// is invalid for the current state fails with `InvalidInput` and
/// leaves no transition to make.
pub fn transition(s: SocketState, op: SocketOp) -> (r: Result<SocketState, Error>)
    ensures
        op_allowed(s, op) ==> r == Ok::<SocketState, Error>(next_state(s, op)),
        !op_allowed(s, op) ==> (r matches Err(e) && e.kind == ErrorKind::InvalidInput
            && e.code is None && e.description@ == "invalid operation for socket state"@),
{
    let allowed = match op {
        SocketOp::Bind => matches!(s, SocketState::Created),
        SocketOp::Listen => matches!(s, SocketState::Bound),
        SocketOp::Connect => matches!(s, SocketState::Created),
        SocketOp::Accept => matches!(s, SocketState::Listening),
        SocketOp::Close => true,
    };
    if !allowed {
        return Err(
            Error {
                kind: ErrorKind::InvalidInput,
                description: "invalid operation for socket state",
                code: None,
            },
        );
    }
    Ok(
        match op {
            SocketOp::Bind => SocketState::Bound,
            SocketOp::Listen => SocketState::Listening,
            SocketOp::Connect => SocketState::Connected,
            SocketOp::Accept => SocketState::Listening,
            SocketOp::Close => SocketState::Closed,
        },
    )
}

/// A retryable accept failure leaves the listener listening: whatever a
/// transient native failure reported, the machine's listening state is
/// unchanged, so the next accept may be attempted at once.
pub proof fn lemma_accept_preserves_listener(s: SocketState)
    requires
        op_allowed(s, SocketOp::Accept),
    ensures
        next_state(s, SocketOp::Accept) == s,
{
}

/// The shared-ownership ledger of kernel objects: one reference count
/// per kernel object, indexed by the object's slot.  Duplicating a
/// handle adds a co-owner of the same object; closing one owner only
/// releases the object when it was the last.
pub struct HandleTable {
    pub counts: Vec<u32>,
}

impl HandleTable {
    /// The number of co-owners of kernel object `h`; zero once the
    /// object has been released.
    pub open spec fn owners(&self, h: int) -> int {
        self.counts@[h] as int
    }

    /// Whether `h` names a kernel object that is still open.
    pub open spec fn is_open(&self, h: int) -> bool {
        0 <= h < self.counts@.len() && self.owners(h) > 0
    }

    /// An empty ledger.
    pub fn new() -> (r: HandleTable)
        ensures
            r.counts@.len() == 0,
    {
        HandleTable { counts: Vec::new() }
    }

    /// Records a freshly allocated kernel object with its one owner and
    /// returns its slot.
    pub fn create(&mut self) -> (h: usize)
        requires
            old(self).counts@.len() < usize::MAX,
        ensures
            h == old(self).counts@.len(),
            final(self).counts@ == old(self).counts@.push(1u32),
            final(self).is_open(h as int),
    {
        let h = self.counts.len();
        self.counts.push(1);
        h
    }

    /// Records a duplication: the handle gains one co-owner; every
    /// other object is untouched.
    pub fn duplicate(&mut self, h: usize)
        requires
            old(self).is_open(h as int),
            old(self).owners(h as int) < u32::MAX,
        ensures
            final(self).counts@ == old(self).counts@.update(h as int, (old(self).counts@[h as int] + 1)
                as u32),
            final(self).owners(h as int) == old(self).owners(h as int) + 1,
            final(self).is_open(h as int),
    {
        let c = self.counts[h];
        self.counts.set(h, c + 1);
    }

    /// Records that one owner closed its handle, and reports whether
    /// that released the kernel object itself: only the last owner's
    /// close does.
    pub fn close(&mut self, h: usize) -> (released: bool)
        requires
            old(self).is_open(h as int),
        ensures
            final(self).counts@ == old(self).counts@.update(h as int, (old(self).counts@[h as int] - 1)
                as u32),
            final(self).owners(h as int) == old(self).owners(h as int) - 1,
            released <==> old(self).owners(h as int) == 1,
            released <==> !final(self).is_open(h as int),
    {
        let c = self.counts[h];
        self.counts.set(h, c - 1);
        c == 1
    }
}

/// Closing one of two co-owners never invalidates the other: while a
/// kernel object has more than one owner, a close leaves it open, so
/// every remaining duplicate can still operate on it.
pub proof fn lemma_close_keeps_duplicates_open(table: HandleTable, closed: HandleTable, h: int)
    requires
        table.is_open(h),
        table.owners(h) >= 2,
        closed.counts@ == table.counts@.update(h, (table.counts@[h] - 1) as u32),
    ensures
        closed.is_open(h),
{
}

} // verus!
