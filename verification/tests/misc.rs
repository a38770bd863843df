use netservices::connection::nonblocking_connect_result;
use netservices::netio::{IoError, IoErrorKind};
use netservices::node::{Metrics, NodeCtl};
use netservices::resource::{Interest, LinkDirection, READ_TIMEOUT_MS, WRITE_TIMEOUT_MS};
use netservices::session::{HandshakeError, IntoInit, ZeroInit};
use netservices::socks5::Socks5Error;
use netservices::READ_BUFFER_SIZE;

const IN_PROGRESS: i32 = 115;
const ALREADY: i32 = 114;

#[test]
fn connect_in_progress_is_no_failure() {
    let err = IoError::from_kind(IoErrorKind::Other);
    assert!(nonblocking_connect_result(Some(IN_PROGRESS), err, IN_PROGRESS, ALREADY).is_ok());
}

#[test]
fn connect_already_under_way() {
    let err = IoError::from_kind(IoErrorKind::Other);
    let res = nonblocking_connect_result(Some(ALREADY), err, IN_PROGRESS, ALREADY);
    assert_eq!(res.unwrap_err().kind(), IoErrorKind::AlreadyExists);
}

#[test]
fn connect_would_block_is_no_failure() {
    let err = IoError::from_kind(IoErrorKind::WouldBlock);
    assert!(nonblocking_connect_result(None, err, IN_PROGRESS, ALREADY).is_ok());
}

#[test]
fn connect_other_failure_stands() {
    let err = IoError::with_message(IoErrorKind::ConnectionReset, "reset".to_string());
    let res = nonblocking_connect_result(Some(1), err, IN_PROGRESS, ALREADY).unwrap_err();
    assert_eq!(res.kind(), IoErrorKind::ConnectionReset);
    assert_eq!(res.message, "reset");
}

#[test]
fn handshake_error_keeps_its_text() {
    assert_eq!(HandshakeError::with("bad key".to_string()).0, "bad key");
}

#[test]
fn anything_initializes_with_zero_init() {
    let init: ZeroInit = 42u8.into_init();
    assert_eq!(init, ZeroInit);
}

#[test]
fn socks5_error_wraps_io_failure() {
    match Socks5Error::from_io(IoError::from_kind(IoErrorKind::TimedOut)) {
        Socks5Error::Io(err) => assert_eq!(err.kind(), IoErrorKind::TimedOut),
    }
}

#[test]
fn constants_and_plain_types() {
    assert_eq!(READ_BUFFER_SIZE, 65535);
    assert_eq!(READ_TIMEOUT_MS, 6000);
    assert_eq!(WRITE_TIMEOUT_MS, 3000);
    assert_eq!(Metrics::new(), Metrics::default());
    assert_eq!(NodeCtl::Terminate, NodeCtl::Terminate);
    assert_ne!(LinkDirection::Inbound, LinkDirection::Outbound);
    assert_eq!(Interest::none(), Interest { read: false, write: false });
    assert_eq!(Interest::write_only(), Interest { read: false, write: true });
}
