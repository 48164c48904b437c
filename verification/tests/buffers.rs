use netbird_embed::{cstr_from_buf, error_buffer, read_error_buf, JsonQuery, JsonStep, Error};
use netbird_embed::{ERROR_BUF_SIZE, INITIAL_BUF_SIZE, MAX_BUF_SIZE};

#[test]
fn cstr_stops_at_first_nul() {
    assert_eq!(cstr_from_buf(b"hello\0world\0"), "hello");
}

#[test]
fn cstr_without_nul_takes_whole_buffer() {
    assert_eq!(cstr_from_buf(b"peer-list"), "peer-list");
}

#[test]
fn cstr_of_empty_and_leading_nul() {
    assert_eq!(cstr_from_buf(b""), "");
    assert_eq!(cstr_from_buf(b"\0abc"), "");
}

#[test]
fn cstr_decodes_utf8() {
    assert_eq!(cstr_from_buf("héllo ✓\0xyz".as_bytes()), "héllo ✓");
}

#[test]
fn cstr_replaces_invalid_utf8() {
    assert_eq!(cstr_from_buf(&[b'a', 0xff, b'b', 0]), "a\u{fffd}b");
}

#[test]
fn error_buffer_is_zeroed() {
    let buf = error_buffer();
    assert_eq!(buf.len(), ERROR_BUF_SIZE);
    assert_eq!(buf.len(), 512);
    assert!(buf.iter().all(|&b| b == 0));
}

#[test]
fn error_buffer_without_message() {
    assert_eq!(read_error_buf(&error_buffer()), None);
    let mut buf = error_buffer();
    buf[..8].copy_from_slice(b"no error");
    assert_eq!(read_error_buf(&buf), None);
}

#[test]
fn error_buffer_with_message() {
    let mut buf = error_buffer();
    buf[..11].copy_from_slice(b"login faile");
    assert_eq!(read_error_buf(&buf), Some("login faile".to_string()));
    assert_eq!(read_error_buf(b"no errors\0"), Some("no errors".to_string()));
    assert_eq!(read_error_buf(b"No error\0"), Some("No error".to_string()));
}

#[test]
fn query_starts_at_four_kib() {
    let q = JsonQuery::new();
    assert_eq!(q.buffer_size(), INITIAL_BUF_SIZE);
    assert_eq!(q.buffer_size(), 4096);
    assert_eq!(q.capacity(), 4096);
    let buf = q.buffer();
    assert_eq!(buf.len(), 4096);
    assert!(buf.iter().all(|&b| b == 0));
}

#[test]
fn query_completes_with_text() {
    let mut q = JsonQuery::new();
    match q.step(0, b"{\"ip\":\"10.0.0.1\"}\0\0\0") {
        JsonStep::Complete(t) => assert_eq!(t, "{\"ip\":\"10.0.0.1\"}"),
        _ => panic!("expected completion"),
    }
    assert_eq!(q.buffer_size(), 4096);
}

#[test]
fn query_doubles_on_range_error() {
    let mut q = JsonQuery::new();
    assert!(matches!(q.step(34, &[]), JsonStep::Retry));
    assert_eq!(q.buffer_size(), 8192);
    assert_eq!(q.capacity(), 8192);
    assert!(matches!(q.step(34, &[]), JsonStep::Retry));
    assert_eq!(q.buffer_size(), 16384);
}

#[test]
fn query_gives_up_after_nine_buffers() {
    let mut q = JsonQuery::new();
    let mut offered = vec![q.buffer_size()];
    loop {
        match q.step(34, &[]) {
            JsonStep::Retry => offered.push(q.buffer_size()),
            JsonStep::Abandon(e) => {
                assert!(matches!(e, Error::BufferTooSmall));
                break;
            }
            _ => panic!("unexpected step"),
        }
    }
    assert_eq!(
        offered,
        vec![4096, 8192, 16384, 32768, 65536, 131072, 262144, 524288, 1048576]
    );
    assert_eq!(q.buffer_size(), MAX_BUF_SIZE);
}

#[test]
fn query_other_code_fails() {
    let mut q = JsonQuery::new();
    match q.step(-1, b"ignored\0") {
        JsonStep::Failed(Error::Ffi(m)) => assert_eq!(m, "unknown error"),
        _ => panic!("expected failure"),
    }
    match q.step(22, &[]) {
        JsonStep::Failed(Error::Ffi(m)) => assert_eq!(m, "unknown error"),
        _ => panic!("expected failure"),
    }
    assert_eq!(q.buffer_size(), 4096);
}
