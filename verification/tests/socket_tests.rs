use win_uds::common::{ErrorKind, WSAECONNREFUSED, WSAECONNRESET, WSAEWOULDBLOCK};
use win_uds::socket::{
    nonblocking_mode, recv_result, send_result, shutdown_how, socket_result, status_result,
    take_error_result, timeout_option, timeout_param, timeout_result, transition, Direction,
    HandleTable, Shutdown, SocketOp, SocketState, INVALID_SOCKET, SD_BOTH, SD_RECEIVE, SD_SEND,
    SOCKET_ERROR, SO_RCVTIMEO, SO_SNDTIMEO,
};

#[test]
fn shutdown_directions_use_native_encoding() {
    assert_eq!(shutdown_how(Shutdown::Read), SD_RECEIVE);
    assert_eq!(shutdown_how(Shutdown::Write), SD_SEND);
    assert_eq!(shutdown_how(Shutdown::Both), SD_BOTH);
    assert_eq!((SD_RECEIVE, SD_SEND, SD_BOTH), (0, 1, 2));
}

#[test]
fn socket_result_passes_valid_handle_through() {
    assert_eq!(socket_result(308, 0).unwrap(), 308);
}

#[test]
fn socket_result_translates_invalid_handle() {
    let e = socket_result(INVALID_SOCKET, WSAECONNREFUSED).unwrap_err();
    assert_eq!(e.kind, ErrorKind::ConnectionRefused);
    assert_eq!(e.code, Some(WSAECONNREFUSED));
}

#[test]
fn send_result_reports_partial_transfer() {
    assert_eq!(send_result(5, 0).unwrap(), 5);
    assert_eq!(send_result(0, 0).unwrap(), 0);
}

#[test]
fn send_result_translates_sentinel() {
    let e = send_result(SOCKET_ERROR, WSAECONNRESET).unwrap_err();
    assert_eq!(e.kind, ErrorKind::ConnectionReset);
    assert_eq!(e.code, Some(WSAECONNRESET));
}

#[test]
fn recv_zero_is_distinct_peer_closed_condition() {
    let e = recv_result(0, 0).unwrap_err();
    assert_eq!(e.kind, ErrorKind::Other);
    assert_eq!(e.description, "Connection closed");
    assert_eq!(e.code, None);
    // not mistakable for "no data yet"
    let wb = recv_result(SOCKET_ERROR, WSAEWOULDBLOCK).unwrap_err();
    assert_eq!(wb.kind, ErrorKind::WouldBlock);
    assert_ne!(e.kind, wb.kind);
}

#[test]
fn recv_result_reports_transfer() {
    assert_eq!(recv_result(13, 0).unwrap(), 13);
}

#[test]
fn status_result_translates_only_sentinel() {
    assert!(status_result(0, 0).is_ok());
    assert!(status_result(1, 0).is_ok());
    let e = status_result(SOCKET_ERROR, WSAECONNRESET).unwrap_err();
    assert_eq!(e.kind, ErrorKind::ConnectionReset);
}

#[test]
fn take_error_drains_pending_code() {
    assert!(take_error_result(0, 0, 0).unwrap().is_none());
    let pending = take_error_result(0, WSAECONNREFUSED, 0).unwrap().unwrap();
    assert_eq!(pending.kind, ErrorKind::ConnectionRefused);
    assert_eq!(pending.code, Some(WSAECONNREFUSED));
    let e = take_error_result(SOCKET_ERROR, 0, WSAECONNRESET).unwrap_err();
    assert_eq!(e.kind, ErrorKind::ConnectionReset);
}

#[test]
fn nonblocking_mode_values() {
    assert_eq!(nonblocking_mode(true), 1);
    assert_eq!(nonblocking_mode(false), 0);
}

#[test]
fn timeout_directions_use_native_options() {
    assert_eq!(timeout_option(Direction::Read), SO_RCVTIMEO);
    assert_eq!(timeout_option(Direction::Write), SO_SNDTIMEO);
    assert_eq!((SO_RCVTIMEO, SO_SNDTIMEO), (0x1006, 0x1005));
}

#[test]
fn timeout_param_encodes_absent_as_zero() {
    assert_eq!(timeout_param(None), 0);
    assert_eq!(timeout_param(Some(1000)), 1000);
    assert_eq!(timeout_param(Some((1u128 << 32) + 5)), 5);
}

#[test]
fn timeout_result_reads_millis() {
    assert_eq!(timeout_result(0, 1000, 0).unwrap(), Some(1000));
    // the native option spells "block indefinitely" as zero
    assert_eq!(timeout_result(0, 0, 0).unwrap(), None);
    let e = timeout_result(SOCKET_ERROR, 0, WSAECONNRESET).unwrap_err();
    assert_eq!(e.kind, ErrorKind::ConnectionReset);
}

#[test]
fn lifecycle_listener_path() {
    let s = SocketState::Created;
    let s = transition(s, SocketOp::Bind).unwrap();
    assert_eq!(s, SocketState::Bound);
    let s = transition(s, SocketOp::Listen).unwrap();
    assert_eq!(s, SocketState::Listening);
    // accept leaves the listener listening
    let s = transition(s, SocketOp::Accept).unwrap();
    assert_eq!(s, SocketState::Listening);
    let s = transition(s, SocketOp::Close).unwrap();
    assert_eq!(s, SocketState::Closed);
}

#[test]
fn lifecycle_stream_path() {
    let s = transition(SocketState::Created, SocketOp::Connect).unwrap();
    assert_eq!(s, SocketState::Connected);
}

#[test]
fn lifecycle_rejects_invalid_operations() {
    let e = transition(SocketState::Created, SocketOp::Listen).unwrap_err();
    assert_eq!(e.kind, ErrorKind::InvalidInput);
    assert_eq!(e.description, "invalid operation for socket state");
    assert!(transition(SocketState::Bound, SocketOp::Connect).is_err());
    assert!(transition(SocketState::Connected, SocketOp::Accept).is_err());
    assert!(transition(SocketState::Listening, SocketOp::Bind).is_err());
}

#[test]
fn close_is_allowed_everywhere() {
    for s in [
        SocketState::Created,
        SocketState::Bound,
        SocketState::Listening,
        SocketState::Connected,
        SocketState::Closed,
    ] {
        assert_eq!(transition(s, SocketOp::Close).unwrap(), SocketState::Closed);
    }
}

#[test]
fn duplicated_handle_outlives_one_close() {
    let mut table = HandleTable::new();
    let h = table.create();
    table.duplicate(h);
    // closing one duplicate must not release the shared kernel object
    assert!(!table.close(h));
    // the last owner's close releases it
    assert!(table.close(h));
}

#[test]
fn independent_objects_have_independent_counts() {
    let mut table = HandleTable::new();
    let a = table.create();
    let b = table.create();
    table.duplicate(b);
    assert!(table.close(a));
    assert!(!table.close(b));
    assert!(table.close(b));
}
