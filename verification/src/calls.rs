use vstd::prelude::*;

use crate::error::{create_error_msg, Error};

verus! {

/// The outcome of a call that returns 0 on success: `fallback` otherwise,
/// which the library's last error message replaces where it has one
/// (see `last_error_or`).
pub fn check_rc(rc: i32, fallback: Error) -> (r: Result<(), Error>)
    ensures
        rc == 0 ==> r is Ok,
        rc != 0 ==> r == Err::<(), Error>(fallback),
{
    if rc != 0 {
        Err(fallback)
    } else {
        Ok(())
    }
}

/// The outcome of a call that returns a file descriptor, negative on failure.
pub fn check_fd(fd: i32, fallback: Error) -> (r: Result<i32, Error>)
    ensures
        fd >= 0 ==> r == Ok::<i32, Error>(fd),
        fd < 0 ==> r == Err::<i32, Error>(fallback),
{
    if fd < 0 {
        Err(fallback)
    } else {
        Ok(fd)
    }
}

/// The local port of a started proxy, from the call's return value
/// (negative on failure); the port is the value's low 16 bits.
pub fn proxy_port(port: i32) -> (r: Result<u16, Error>)
    ensures
        port >= 0 ==> r == Ok::<u16, Error>((port % 65536) as u16),
        port < 0 ==> r == Err::<u16, Error>(Error::Proxy),
{
    if port < 0 {
        return Err(Error::Proxy);
    }
    let low: i32 = port % 65536;
    Ok(low as u16)
}

/// The handle of a newly created client, where the library created one
/// (it returns a negative value on failure).
pub fn created_handle(handle: i32) -> (r: Option<i32>)
    ensures
        handle >= 0 ==> r == Some(handle),
        handle < 0 ==> r is None,
{
    if handle < 0 {
        None
    } else {
        Some(handle)
    }
}

/// The error of a failed creation, with the library's message where it has
/// one (`last`), else "unknown error".
pub fn creation_error(last: Option<String>) -> (e: Error)
    ensures
        e matches Error::Create(m) && m@ == (match last {
            Some(l) => l@,
            None => "unknown error"@,
        }),
{
    Error::Create(create_error_msg(last))
}

/// The unsigned value of four little-endian bytes.
pub open spec fn le_u32(b: Seq<u8>) -> int {
    b[0] + 256 * b[1] + 65536 * b[2] + 16777216 * b[3]
}

/// A 32-bit value read as a signed file descriptor (two's complement).
pub open spec fn as_fd(v: int) -> int {
    if v < 0x8000_0000 {
        v
    } else {
        v - 0x1_0000_0000
    }
}

/// The file descriptor of an accepted connection, sent by the library as
/// four little-endian bytes.
pub fn accepted_fd(bytes: [u8; 4]) -> (fd: i32)
    ensures
        fd == as_fd(le_u32(bytes@)),
        (fd + 0x1_0000_0000) % 0x1_0000_0000 == bytes@[0] + 256 * bytes@[1] + 65536 * bytes@[2]
            + 16777216 * bytes@[3],
        bytes@[3] < 128 ==> fd == bytes@[0] + 256 * bytes@[1] + 65536 * bytes@[2] + 16777216
            * bytes@[3],
        bytes@[3] >= 128 ==> fd < 0,
{
    let v: u32 = bytes[0] as u32 + 256 * (bytes[1] as u32) + 65536 * (bytes[2] as u32)
        + 16777216 * (bytes[3] as u32);
    if v < 0x8000_0000 {
        v as i32
    } else {
        let high: i32 = (v - 0x8000_0000) as i32;
        high - 0x4000_0000 - 0x4000_0000
    }
}

} // verus!
