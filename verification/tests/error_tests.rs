use win_uds::common::{
    decimal_string, int_string, startup, wsa_error, ErrorKind, WSAEACCES, WSAEADDRINUSE,
    WSAEADDRNOTAVAIL, WSAEAFNOSUPPORT, WSAECONNABORTED, WSAECONNREFUSED, WSAECONNRESET,
    WSAEHOSTUNREACH, WSAEINPROGRESS, WSAEINVAL, WSAEINVALIDPROCTABLE, WSAEINVALIDPROVIDER,
    WSAEISCONN, WSAEMFILE, WSAEMSGSIZE, WSAENETDOWN, WSAENETUNREACH, WSAENOBUFS, WSAENOTCONN,
    WSAEPROTONOSUPPORT, WSAEPROTOTYPE, WSAEPROVIDERFAILEDINIT, WSAESHUTDOWN, WSAESOCKTNOSUPPORT,
    WSAETIMEDOUT, WSAEWOULDBLOCK, WSANOTINITIALISED,
};

#[test]
fn recognized_codes_map_to_documented_kinds() {
    let table = [
        (WSAENETDOWN, ErrorKind::ConnectionReset),
        (WSAEAFNOSUPPORT, ErrorKind::Unsupported),
        (WSAEWOULDBLOCK, ErrorKind::WouldBlock),
        (WSAEINPROGRESS, ErrorKind::WouldBlock),
        (WSAEMFILE, ErrorKind::ResourceBusy),
        (WSAEINVAL, ErrorKind::InvalidInput),
        (WSAEINVALIDPROVIDER, ErrorKind::InvalidData),
        (WSAEINVALIDPROCTABLE, ErrorKind::InvalidData),
        (WSAEPROVIDERFAILEDINIT, ErrorKind::InvalidData),
        (WSAENOBUFS, ErrorKind::OutOfMemory),
        (WSAEPROTONOSUPPORT, ErrorKind::Unsupported),
        (WSAEPROTOTYPE, ErrorKind::Unsupported),
        (WSAESOCKTNOSUPPORT, ErrorKind::Unsupported),
        (WSAECONNREFUSED, ErrorKind::ConnectionRefused),
        (WSAETIMEDOUT, ErrorKind::TimedOut),
        (WSAECONNABORTED, ErrorKind::ConnectionAborted),
        (WSAECONNRESET, ErrorKind::ConnectionReset),
        (WSAEADDRINUSE, ErrorKind::AddrInUse),
        (WSAEADDRNOTAVAIL, ErrorKind::AddrNotAvailable),
        (WSAEACCES, ErrorKind::PermissionDenied),
        (WSAEISCONN, ErrorKind::AlreadyExists),
        (WSAENOTCONN, ErrorKind::NotConnected),
        (WSAESHUTDOWN, ErrorKind::BrokenPipe),
        (WSAEMSGSIZE, ErrorKind::InvalidInput),
        (WSAEHOSTUNREACH, ErrorKind::HostUnreachable),
        (WSAENETUNREACH, ErrorKind::HostUnreachable),
    ];
    for (code, kind) in table {
        let e = wsa_error(code);
        assert_eq!(e.kind, kind);
        assert_eq!(e.code, Some(code));
        assert_ne!(e.kind, ErrorKind::Other);
    }
}

#[test]
fn bootstrap_not_done_reports_other_with_its_own_description() {
    let e = wsa_error(WSANOTINITIALISED);
    assert_eq!(e.kind, ErrorKind::Other);
    assert_eq!(e.code, Some(WSANOTINITIALISED));
    assert_eq!(
        e.description,
        "Successful WSAStartup call must occur before using this function"
    );
    assert_eq!(
        e.message(),
        "Successful WSAStartup call must occur before using this function (error code: 10093)"
    );
}

#[test]
fn unknown_code_maps_to_other_and_keeps_code() {
    let e = wsa_error(4242);
    assert_eq!(e.kind, ErrorKind::Other);
    assert_eq!(e.code, Some(4242));
    assert_eq!(e.description, "Windows Sockets error");
    assert_eq!(e.message(), "Windows Sockets error (error code: 4242)");
}

#[test]
fn zero_and_negative_codes_map_to_other() {
    assert_eq!(wsa_error(0).kind, ErrorKind::Other);
    let e = wsa_error(-7);
    assert_eq!(e.kind, ErrorKind::Other);
    assert_eq!(e.message(), "Windows Sockets error (error code: -7)");
}

#[test]
fn timed_out_message_is_exact() {
    let e = wsa_error(WSAETIMEDOUT);
    assert_eq!(e.kind, ErrorKind::TimedOut);
    assert_eq!(e.message(), "Connection timed out (error code: 10060)");
}

#[test]
fn would_block_message_is_exact() {
    let e = wsa_error(WSAEWOULDBLOCK);
    assert_eq!(e.kind, ErrorKind::WouldBlock);
    assert_eq!(
        e.message(),
        "Resource temporarily unavailable (error code: 10035)"
    );
}

#[test]
fn refused_message_is_exact() {
    let e = wsa_error(WSAECONNREFUSED);
    assert_eq!(e.message(), "Connection refused (error code: 10061)");
}

#[test]
fn decimal_rendering_is_exact() {
    assert_eq!(decimal_string(0), "0");
    assert_eq!(decimal_string(7), "7");
    assert_eq!(decimal_string(10), "10");
    assert_eq!(decimal_string(10060), "10060");
    assert_eq!(decimal_string(u64::MAX), "18446744073709551615");
}

#[test]
fn signed_rendering_is_exact() {
    assert_eq!(int_string(0), "0");
    assert_eq!(int_string(-1), "-1");
    assert_eq!(int_string(-10093), "-10093");
    assert_eq!(int_string(i32::MIN), "-2147483648");
    assert_eq!(int_string(i32::MAX), "2147483647");
}

#[test]
fn startup_reports_its_own_code() {
    assert!(startup(0).is_ok());
    let e = startup(WSAEPROVIDERFAILEDINIT).unwrap_err();
    assert_eq!(e.kind, ErrorKind::Other);
    assert_eq!(e.code, Some(WSAEPROVIDERFAILEDINIT));
    assert_eq!(e.message(), "WSAStartup failed (error code: 10106)");
}
