//! Unix-domain stream-socket support for a native sockets stack whose
//! address family, error reporting and readiness model differ from POSIX.
//!
//! The crate holds the platform-independent core of that compatibility
//! layer: translation of native failure codes into a portable error
//! taxonomy, marshaling of filesystem paths into the fixed-size native
//! address record and back, interpretation of the native calls' raw
//! results, the socket-handle lifecycle state machine, and the decision
//! logic of the readiness-driven non-blocking adaptor.  The native calls
//! themselves are made by a thin unverified shell around this crate,
//! which hands their raw results in as plain values.

pub mod addr;
pub mod async_uds;
pub mod common;
pub mod socket;
