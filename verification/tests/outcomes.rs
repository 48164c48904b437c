use netbird_embed::{accepted_fd, check_fd, check_rc, created_handle, creation_error, proxy_port};
use netbird_embed::{create_error_msg, last_error_or, Error};

#[test]
fn rc_zero_is_success() {
    assert!(check_rc(0, Error::Start).is_ok());
    assert!(matches!(check_rc(1, Error::Start), Err(Error::Start)));
    assert!(matches!(check_rc(-1, Error::SetLogLevel), Err(Error::SetLogLevel)));
}

#[test]
fn negative_fd_is_failure() {
    assert_eq!(check_fd(7, Error::Dial).unwrap(), 7);
    assert_eq!(check_fd(0, Error::Listen).unwrap(), 0);
    assert!(matches!(check_fd(-1, Error::ListenUdp), Err(Error::ListenUdp)));
}

#[test]
fn proxy_port_values() {
    assert_eq!(proxy_port(40123).unwrap(), 40123);
    assert_eq!(proxy_port(0).unwrap(), 0);
    assert_eq!(proxy_port(70000).unwrap(), 4464);
    assert!(matches!(proxy_port(-1), Err(Error::Proxy)));
}

#[test]
fn handle_values() {
    assert_eq!(created_handle(3), Some(3));
    assert_eq!(created_handle(0), Some(0));
    assert_eq!(created_handle(-1), None);
}

#[test]
fn creation_error_messages() {
    match creation_error(Some("bad setup key".to_string())) {
        Error::Create(m) => assert_eq!(m, "bad setup key"),
        _ => panic!("expected Create"),
    }
    match creation_error(None) {
        Error::Create(m) => assert_eq!(m, "unknown error"),
        _ => panic!("expected Create"),
    }
    assert_eq!(create_error_msg(None), "unknown error");
}

#[test]
fn library_message_takes_precedence() {
    match last_error_or(Some("tunnel down".to_string()), Error::Stop) {
        Error::Ffi(m) => assert_eq!(m, "tunnel down"),
        _ => panic!("expected Ffi"),
    }
    assert!(matches!(last_error_or(None, Error::Stop), Error::Stop));
}

#[test]
fn fd_from_little_endian_bytes() {
    assert_eq!(accepted_fd([5, 0, 0, 0]), 5);
    assert_eq!(accepted_fd([0x34, 0x12, 0, 0]), 0x1234);
    assert_eq!(accepted_fd([0, 0, 0, 0x7f]), 0x7f00_0000);
    assert_eq!(accepted_fd([0xff, 0xff, 0xff, 0xff]), -1);
    assert_eq!(accepted_fd([0, 0, 0, 0x80]), i32::MIN);
}

#[test]
fn error_messages() {
    assert_eq!(Error::Create("x".to_string()).message(), "failed to create NetBird client: x");
    assert_eq!(Error::Start.message(), "failed to start NetBird client");
    assert_eq!(Error::Stop.message(), "failed to stop NetBird client");
    assert_eq!(Error::BufferTooSmall.message(), "buffer too small for response");
    assert_eq!(Error::Ffi("boom".to_string()).message(), "FFI returned error: boom");
    assert_eq!(Error::Dial.message(), "dial failed");
    assert_eq!(Error::Listen.message(), "listen failed");
    assert_eq!(Error::InteriorNul.message(), "string contains interior NUL byte");
}

#[test]
fn deserialize_error_message() {
    let e = serde_json::from_str::<u32>("not json").unwrap_err();
    let text = e.to_string();
    let err = Error::from(e);
    assert!(matches!(err, Error::Deserialize(_)));
    assert_eq!(err.message(), format!("failed to deserialize response: {}", text));
}
