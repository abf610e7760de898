//! The error translator: maps native Windows Sockets failure codes to a
//! portable error taxonomy, and models the one-time process-wide
//! network-subsystem bootstrap.

use vstd::prelude::*;
use vstd::string::StringExecFns;

verus! {

/// The portable classification of a native failure.  Callers of the
/// library observe only these kinds, never native codes directly.
#[derive(Clone, Copy, Debug, PartialEq, Eq, Structural)]
pub enum ErrorKind {
    WouldBlock,
    TimedOut,
    ConnectionRefused,
    ConnectionReset,
    ConnectionAborted,
    AddrInUse,
    AddrNotAvailable,
    InvalidInput,
    PermissionDenied,
    NotConnected,
    BrokenPipe,
    HostUnreachable,
    OutOfMemory,
    Unsupported,
    ResourceBusy,
    AlreadyExists,
    InvalidData,
    Other,
}

/// A portable error value: a kind, a human-readable description, and,
/// where the error came from a native call, the original native code.
#[derive(Clone, Copy, Debug)]
pub struct Error {
    pub kind: ErrorKind,
    pub description: &'static str,
    pub code: Option<i32>,
}

pub const WSAEACCES: i32 = 10013;
pub const WSAEINVAL: i32 = 10022;
pub const WSAEMFILE: i32 = 10024;
pub const WSAEWOULDBLOCK: i32 = 10035;
pub const WSAEINPROGRESS: i32 = 10036;
pub const WSAEMSGSIZE: i32 = 10040;
pub const WSAEPROTOTYPE: i32 = 10041;
pub const WSAEPROTONOSUPPORT: i32 = 10043;
pub const WSAESOCKTNOSUPPORT: i32 = 10044;
pub const WSAEAFNOSUPPORT: i32 = 10047;
pub const WSAEADDRINUSE: i32 = 10048;
pub const WSAEADDRNOTAVAIL: i32 = 10049;
pub const WSAENETDOWN: i32 = 10050;
pub const WSAENETUNREACH: i32 = 10051;
pub const WSAECONNABORTED: i32 = 10053;
pub const WSAECONNRESET: i32 = 10054;
pub const WSAENOBUFS: i32 = 10055;
pub const WSAEISCONN: i32 = 10056;
pub const WSAENOTCONN: i32 = 10057;
pub const WSAESHUTDOWN: i32 = 10058;
pub const WSAETIMEDOUT: i32 = 10060;
pub const WSAECONNREFUSED: i32 = 10061;
pub const WSAEHOSTUNREACH: i32 = 10065;
pub const WSANOTINITIALISED: i32 = 10093;
pub const WSAEINVALIDPROCTABLE: i32 = 10104;
pub const WSAEINVALIDPROVIDER: i32 = 10105;
pub const WSAEPROVIDERFAILEDINIT: i32 = 10106;

/// Whether a native code has an entry of its own in the translation
/// table; every other code is reported under the generic `Other` kind.
pub open spec fn is_recognized(code: i32) -> bool {
    ||| code == WSAEACCES
    ||| code == WSAEINVAL
    ||| code == WSAEMFILE
    ||| code == WSAEWOULDBLOCK
    ||| code == WSAEINPROGRESS
    ||| code == WSAEMSGSIZE
    ||| code == WSAEPROTOTYPE
    ||| code == WSAEPROTONOSUPPORT
    ||| code == WSAESOCKTNOSUPPORT
    ||| code == WSAEAFNOSUPPORT
    ||| code == WSAEADDRINUSE
    ||| code == WSAEADDRNOTAVAIL
    ||| code == WSAENETDOWN
    ||| code == WSAENETUNREACH
    ||| code == WSAECONNABORTED
    ||| code == WSAECONNRESET
    ||| code == WSAENOBUFS
    ||| code == WSAEISCONN
    ||| code == WSAENOTCONN
    ||| code == WSAESHUTDOWN
    ||| code == WSAETIMEDOUT
    ||| code == WSAECONNREFUSED
    ||| code == WSAEHOSTUNREACH
    ||| code == WSANOTINITIALISED
    ||| code == WSAEINVALIDPROCTABLE
    ||| code == WSAEINVALIDPROVIDER
    ||| code == WSAEPROVIDERFAILEDINIT
}

/// The translation table: the one portable kind of each recognized
/// native code; every unrecognized code falls to `Other`.  The
/// bootstrap-not-done code also reports under `Other`, with its own
/// description — it is not a connection-level failure.
pub open spec fn kind_of_code(code: i32) -> ErrorKind {
    if code == WSANOTINITIALISED {
        ErrorKind::Other
    } else if code == WSAENETDOWN {
        ErrorKind::ConnectionReset
    } else if code == WSAEAFNOSUPPORT {
        ErrorKind::Unsupported
    } else if code == WSAEWOULDBLOCK {
        ErrorKind::WouldBlock
    } else if code == WSAEINPROGRESS {
        ErrorKind::WouldBlock
    } else if code == WSAEMFILE {
        ErrorKind::ResourceBusy
    } else if code == WSAEINVAL {
        ErrorKind::InvalidInput
    } else if code == WSAEINVALIDPROVIDER || code == WSAEINVALIDPROCTABLE
        || code == WSAEPROVIDERFAILEDINIT {
        ErrorKind::InvalidData
    } else if code == WSAENOBUFS {
        ErrorKind::OutOfMemory
    } else if code == WSAEPROTONOSUPPORT || code == WSAEPROTOTYPE
        || code == WSAESOCKTNOSUPPORT {
        ErrorKind::Unsupported
    } else if code == WSAECONNREFUSED {
        ErrorKind::ConnectionRefused
    } else if code == WSAETIMEDOUT {
        ErrorKind::TimedOut
    } else if code == WSAECONNABORTED {
        ErrorKind::ConnectionAborted
    } else if code == WSAECONNRESET {
        ErrorKind::ConnectionReset
    } else if code == WSAEADDRINUSE {
        ErrorKind::AddrInUse
    } else if code == WSAEADDRNOTAVAIL {
        ErrorKind::AddrNotAvailable
    } else if code == WSAEACCES {
        ErrorKind::PermissionDenied
    } else if code == WSAEISCONN {
        ErrorKind::AlreadyExists
    } else if code == WSAENOTCONN {
        ErrorKind::NotConnected
    } else if code == WSAESHUTDOWN {
        ErrorKind::BrokenPipe
    } else if code == WSAEMSGSIZE {
        ErrorKind::InvalidInput
    } else if code == WSAEHOSTUNREACH || code == WSAENETUNREACH {
        ErrorKind::HostUnreachable
    } else {
        ErrorKind::Other
    }
}

/// The human-readable description that goes with each native code.
pub open spec fn description_of_code(code: i32) -> Seq<char> {
    if code == WSANOTINITIALISED {
        "Successful WSAStartup call must occur before using this function"@
    } else if code == WSAENETDOWN {
        "The network subsystem has failed"@
    } else if code == WSAEAFNOSUPPORT {
        "The specified address family is not supported"@
    } else if code == WSAEWOULDBLOCK {
        "Resource temporarily unavailable"@
    } else if code == WSAEINPROGRESS {
        "A blocking Windows Sockets call is in progress"@
    } else if code == WSAEMFILE {
        "No more socket descriptors are available"@
    } else if code == WSAEINVAL {
        "An invalid argument was supplied"@
    } else if code == WSAEINVALIDPROVIDER {
        "The service provider returned a version other than 2.2"@
    } else if code == WSAEINVALIDPROCTABLE {
        "The service provider returned an invalid procedure table"@
    } else if code == WSAEPROVIDERFAILEDINIT {
        "The service provider failed to initialize"@
    } else if code == WSAENOBUFS {
        "No buffer space is available"@
    } else if code == WSAEPROTONOSUPPORT {
        "The specified protocol is not supported"@
    } else if code == WSAEPROTOTYPE {
        "The specified protocol is the wrong type for this socket"@
    } else if code == WSAESOCKTNOSUPPORT {
        "The specified socket type is not supported in this address family"@
    } else if code == WSAECONNREFUSED {
        "Connection refused"@
    } else if code == WSAETIMEDOUT {
        "Connection timed out"@
    } else if code == WSAECONNABORTED {
        "Connection aborted"@
    } else if code == WSAECONNRESET {
        "Connection reset by peer"@
    } else if code == WSAEADDRINUSE {
        "Address already in use"@
    } else if code == WSAEADDRNOTAVAIL {
        "Address not available"@
    } else if code == WSAEACCES {
        "Permission denied"@
    } else if code == WSAEISCONN {
        "Socket is already connected"@
    } else if code == WSAENOTCONN {
        "Socket is not connected"@
    } else if code == WSAESHUTDOWN {
        "Socket has been shut down"@
    } else if code == WSAEMSGSIZE {
        "Message too long"@
    } else if code == WSAEHOSTUNREACH {
        "Host is unreachable"@
    } else if code == WSAENETUNREACH {
        "Network is unreachable"@
    } else {
        "Windows Sockets error"@
    }
}

/// What the translator produces for a native code, field by field.
pub open spec fn is_translation_of(e: Error, code: i32) -> bool {
    &&& e.kind == kind_of_code(code)
    &&& e.description@ == description_of_code(code)
    &&& e.code == Some(code)
}

/// Translates a native failure code into a portable error value.  Total
/// over the whole native code domain: a recognized code maps to its one
/// documented kind, and an unrecognized one to `Other` with the original
/// code preserved.
pub fn wsa_error(code: i32) -> (r: Error)
    ensures
        is_translation_of(r, code),
{
    let kind = if code == WSANOTINITIALISED {
        ErrorKind::Other
    } else if code == WSAENETDOWN {
        ErrorKind::ConnectionReset
    } else if code == WSAEAFNOSUPPORT {
        ErrorKind::Unsupported
    } else if code == WSAEWOULDBLOCK {
        ErrorKind::WouldBlock
    } else if code == WSAEINPROGRESS {
        ErrorKind::WouldBlock
    } else if code == WSAEMFILE {
        ErrorKind::ResourceBusy
    } else if code == WSAEINVAL {
        ErrorKind::InvalidInput
    } else if code == WSAEINVALIDPROVIDER || code == WSAEINVALIDPROCTABLE
        || code == WSAEPROVIDERFAILEDINIT {
        ErrorKind::InvalidData
    } else if code == WSAENOBUFS {
        ErrorKind::OutOfMemory
    } else if code == WSAEPROTONOSUPPORT || code == WSAEPROTOTYPE
        || code == WSAESOCKTNOSUPPORT {
        ErrorKind::Unsupported
    } else if code == WSAECONNREFUSED {
        ErrorKind::ConnectionRefused
    } else if code == WSAETIMEDOUT {
        ErrorKind::TimedOut
    } else if code == WSAECONNABORTED {
        ErrorKind::ConnectionAborted
    } else if code == WSAECONNRESET {
        ErrorKind::ConnectionReset
    } else if code == WSAEADDRINUSE {
        ErrorKind::AddrInUse
    } else if code == WSAEADDRNOTAVAIL {
        ErrorKind::AddrNotAvailable
    } else if code == WSAEACCES {
        ErrorKind::PermissionDenied
    } else if code == WSAEISCONN {
        ErrorKind::AlreadyExists
    } else if code == WSAENOTCONN {
        ErrorKind::NotConnected
    } else if code == WSAESHUTDOWN {
        ErrorKind::BrokenPipe
    } else if code == WSAEMSGSIZE {
        ErrorKind::InvalidInput
    } else if code == WSAEHOSTUNREACH || code == WSAENETUNREACH {
        ErrorKind::HostUnreachable
    } else {
        ErrorKind::Other
    };
    let description: &'static str = if code == WSANOTINITIALISED {
        "Successful WSAStartup call must occur before using this function"
    } else if code == WSAENETDOWN {
        "The network subsystem has failed"
    } else if code == WSAEAFNOSUPPORT {
        "The specified address family is not supported"
    } else if code == WSAEWOULDBLOCK {
        "Resource temporarily unavailable"
    } else if code == WSAEINPROGRESS {
        "A blocking Windows Sockets call is in progress"
    } else if code == WSAEMFILE {
        "No more socket descriptors are available"
    } else if code == WSAEINVAL {
        "An invalid argument was supplied"
    } else if code == WSAEINVALIDPROVIDER {
        "The service provider returned a version other than 2.2"
    } else if code == WSAEINVALIDPROCTABLE {
        "The service provider returned an invalid procedure table"
    } else if code == WSAEPROVIDERFAILEDINIT {
        "The service provider failed to initialize"
    } else if code == WSAENOBUFS {
        "No buffer space is available"
    } else if code == WSAEPROTONOSUPPORT {
        "The specified protocol is not supported"
    } else if code == WSAEPROTOTYPE {
        "The specified protocol is the wrong type for this socket"
    } else if code == WSAESOCKTNOSUPPORT {
        "The specified socket type is not supported in this address family"
    } else if code == WSAECONNREFUSED {
        "Connection refused"
    } else if code == WSAETIMEDOUT {
        "Connection timed out"
    } else if code == WSAECONNABORTED {
        "Connection aborted"
    } else if code == WSAECONNRESET {
        "Connection reset by peer"
    } else if code == WSAEADDRINUSE {
        "Address already in use"
    } else if code == WSAEADDRNOTAVAIL {
        "Address not available"
    } else if code == WSAEACCES {
        "Permission denied"
    } else if code == WSAEISCONN {
        "Socket is already connected"
    } else if code == WSAENOTCONN {
        "Socket is not connected"
    } else if code == WSAESHUTDOWN {
        "Socket has been shut down"
    } else if code == WSAEMSGSIZE {
        "Message too long"
    } else if code == WSAEHOSTUNREACH {
        "Host is unreachable"
    } else if code == WSAENETUNREACH {
        "Network is unreachable"
    } else {
        "Windows Sockets error"
    };
    Error { kind, description, code: Some(code) }
}

/// The character of one decimal digit.
pub open spec fn digit_char(d: nat) -> char {
    if d == 0 {
        '0'
    } else if d == 1 {
        '1'
    } else if d == 2 {
        '2'
    } else if d == 3 {
        '3'
    } else if d == 4 {
        '4'
    } else if d == 5 {
        '5'
    } else if d == 6 {
        '6'
    } else if d == 7 {
        '7'
    } else if d == 8 {
        '8'
    } else {
        '9'
    }
}

/// The decimal digits of a natural number, most significant first.
pub open spec fn dec_digits(n: nat) -> Seq<char>
    decreases n,
{
    if n < 10 {
        seq![digit_char(n)]
    } else {
        dec_digits(n / 10) + seq![digit_char(n % 10)]
    }
}

/// The decimal rendering of an integer, with a leading minus sign when
/// it is negative.
pub open spec fn int_chars(n: int) -> Seq<char> {
    if n < 0 {
        seq!['-'] + dec_digits((-n) as nat)
    } else {
        dec_digits(n as nat)
    }
}

fn digit_str(d: u64) -> (r: &'static str)
    requires
        d < 10,
    ensures
        r@ == seq![digit_char(d as nat)],
{
    let r: &'static str = if d == 0 {
        "0"
    } else if d == 1 {
        "1"
    } else if d == 2 {
        "2"
    } else if d == 3 {
        "3"
    } else if d == 4 {
        "4"
    } else if d == 5 {
        "5"
    } else if d == 6 {
        "6"
    } else if d == 7 {
        "7"
    } else if d == 8 {
        "8"
    } else {
        "9"
    };
    proof {
        reveal_strlit("0");
        reveal_strlit("1");
        reveal_strlit("2");
        reveal_strlit("3");
        reveal_strlit("4");
        reveal_strlit("5");
        reveal_strlit("6");
        reveal_strlit("7");
        reveal_strlit("8");
        reveal_strlit("9");
        assert(r@ =~= seq![digit_char(d as nat)]);
    }
    r
}

/// Renders a natural number in decimal.
pub fn decimal_string(n: u64) -> (r: String)
    ensures
        r@ == dec_digits(n as nat),
    decreases n,
{
    if n < 10 {
        String::from_str(digit_str(n))
    } else {
        let prefix = decimal_string(n / 10);
        prefix.concat(digit_str(n % 10))
    }
}

/// Renders a signed integer in decimal.
pub fn int_string(n: i32) -> (r: String)
    ensures
        r@ == int_chars(n as int),
{
    if n < 0 {
        let wide: i64 = n as i64;
        let magnitude: u64 = (-wide) as u64;
        let digits = decimal_string(magnitude);
        proof {
            reveal_strlit("-");
            assert("-"@ =~= seq!['-']);
        }
        String::from_str("-").concat(digits.as_str())
    } else {
        decimal_string(n as u64)
    }
}

/// The full diagnostic text of an error: its description, followed by
/// the original native code where one was recorded.
pub open spec fn rendered_message(e: Error) -> Seq<char> {
    match e.code {
        Some(c) => e.description@ + " (error code: "@ + int_chars(c as int) + ")"@,
        None => e.description@,
    }
}

impl Error {
    /// The diagnostic text of this error.  Where the error carries a
    /// native code, the text preserves that code in decimal, so that
    /// even an unrecognized failure loses nothing.
    pub fn message(&self) -> (r: String)
        ensures
            r@ == rendered_message(*self),
    {
        match self.code {
            None => String::from_str(self.description),
            Some(c) => {
                let digits = int_string(c);
                String::from_str(self.description)
                    .concat(" (error code: ")
                    .concat(digits.as_str())
                    .concat(")")
            },
        }
    }
}

/// Translation is total: every native code, recognized or not, maps to
/// a kind of the taxonomy, and every unrecognized code falls to the
/// generic `Other` kind — with the original code preserved, by
/// `wsa_error`'s contract — so no failure escapes.
pub proof fn lemma_error_totality(code: i32)
    ensures
        !is_recognized(code) ==> kind_of_code(code) == ErrorKind::Other,
{
}

/// The state of the one-time process-wide network-subsystem bootstrap.
/// It is initialized lazily by the first socket creation and, once
/// ready, stays valid for the lifetime of the process.
#[derive(Clone, Copy, Debug, PartialEq, Eq, Structural)]
pub enum BootstrapState {
    Uninitialized,
    Ready,
}

/// Whether a socket-creation path must perform the native startup call
/// before allocating a socket.
pub fn needs_startup(state: BootstrapState) -> (r: bool)
    ensures
        r <==> state is Uninitialized,
{
    match state {
        BootstrapState::Uninitialized => true,
        BootstrapState::Ready => false,
    }
}

/// Interprets the raw return of the native startup call, which reports
/// failure by its own nonzero code rather than through the thread-local
/// error state.
pub fn startup(ret: i32) -> (r: Result<(), Error>)
    ensures
        ret == 0 <==> r is Ok,
        r matches Err(e) ==> e.kind == ErrorKind::Other && e.code == Some(ret)
            && e.description@ == "WSAStartup failed"@,
{
    if ret == 0 {
        Ok(())
    } else {
        Err(Error { kind: ErrorKind::Other, description: "WSAStartup failed", code: Some(ret) })
    }
}

/// The bootstrap state after one more initialization attempt whose
/// native call, if one was needed, returned `native_ret`.
pub open spec fn bootstrap_step(state: BootstrapState, native_ret: i32) -> BootstrapState {
    if state is Ready || native_ret == 0 {
        BootstrapState::Ready
    } else {
        BootstrapState::Uninitialized
    }
}

/// Whether that attempt reports success to its caller.
pub open spec fn bootstrap_succeeds(state: BootstrapState, native_ret: i32) -> bool {
    state is Ready || native_ret == 0
}

/// One idempotent initialization attempt.  A bootstrap that is already
/// ready succeeds without consulting the native result at all; an
/// uninitialized one becomes ready exactly when the native call
/// succeeded, and otherwise stays uninitialized so that the next
/// creation retries.
pub fn ensure_initialized(state: BootstrapState, native_ret: i32) -> (r: (
    BootstrapState,
    Result<(), Error>,
))
    ensures
        r.0 == bootstrap_step(state, native_ret),
        r.1 is Ok <==> bootstrap_succeeds(state, native_ret),
        r.1 matches Err(e) ==> e.kind == ErrorKind::Other && e.code == Some(native_ret)
            && e.description@ == "WSAStartup failed"@,
{
    match state {
        BootstrapState::Ready => (BootstrapState::Ready, Ok(())),
        BootstrapState::Uninitialized => match startup(native_ret) {
            Ok(()) => (BootstrapState::Ready, Ok(())),
            Err(e) => (BootstrapState::Uninitialized, Err(e)),
        },
    }
}

/// Bootstrap is idempotent: once one attempt has succeeded, every
/// further attempt, whatever its native result would have been, leaves
/// the state ready and reports success — exactly one initialization is
/// effective, and redundant invocations can never fail.
pub proof fn lemma_bootstrap_idempotent(state: BootstrapState, ret1: i32, ret2: i32)
    requires
        bootstrap_succeeds(state, ret1),
    ensures
        bootstrap_step(state, ret1) is Ready,
        bootstrap_step(bootstrap_step(state, ret1), ret2) == bootstrap_step(state, ret1),
        bootstrap_succeeds(bootstrap_step(state, ret1), ret2),
{
}

} // verus!
