use vstd::prelude::*;
use vstd::string::StringExecFns;
use serde_json::Error as JsonError;

verus! {

broadcast use vstd::string::group_string_axioms;

/// A JSON decoding error, carried through unchanged.
#[verifier::external_type_specification]
#[verifier::external_body]
pub struct ExJsonError(JsonError);

/// Errors reported by the client.
#[derive(Debug)]
pub enum Error {
    /// The client could not be created; holds the reason reported by the library.
    Create(String),
    /// The client could not be started.
    Start,
    /// The client could not be stopped.
    Stop,
    /// The JSON response did not fit even in the largest buffer.
    BufferTooSmall,
    /// The library reported an error with this message.
    Ffi(String),
    /// The JSON response could not be decoded.
    Deserialize(JsonError),
    /// Dialing a peer failed.
    Dial,
    /// Listening on a mesh address failed.
    Listen,
    /// Listening for UDP datagrams failed.
    ListenUdp,
    /// Starting a proxy failed.
    Proxy,
    /// Changing the log level failed.
    SetLogLevel,
    /// A string handed to the library contains a NUL byte.
    InteriorNul,
}

/// The message of an error whose text does not depend on a foreign value.
pub open spec fn error_message(e: Error) -> Seq<char> {
    match e {
        Error::Create(m) => "failed to create NetBird client: "@ + m@,
        Error::Start => "failed to start NetBird client"@,
        Error::Stop => "failed to stop NetBird client"@,
        Error::BufferTooSmall => "buffer too small for response"@,
        Error::Ffi(m) => "FFI returned error: "@ + m@,
        Error::Deserialize(_) => "failed to deserialize response: "@,
        Error::Dial => "dial failed"@,
        Error::Listen => "listen failed"@,
        Error::ListenUdp => "UDP listen failed"@,
        Error::Proxy => "proxy failed"@,
        Error::SetLogLevel => "failed to set log level"@,
        Error::InteriorNul => "string contains interior NUL byte"@,
    }
}

/// The text that serde_json's `Display` of the error `e` writes.
///
/// Nothing is claimed of the text: the error's contents are not visible to
/// the verifier, so the result is left unconstrained.
#[verifier::external_body]
fn json_error_text(e: &JsonError) -> String {
    format!("{}", e)
}

impl Error {
    /// The human-readable description of the error.
    pub fn message(&self) -> (text: String)
        ensures
            self is Deserialize ==> error_message(*self).is_prefix_of(text@),
            !(self is Deserialize) ==> text@ == error_message(*self),
            self matches Error::Create(m) ==> text@ == "failed to create NetBird client: "@ + m@,
            self is Start ==> text@ == "failed to start NetBird client"@,
            self is Stop ==> text@ == "failed to stop NetBird client"@,
            self is BufferTooSmall ==> text@ == "buffer too small for response"@,
            self matches Error::Ffi(m) ==> text@ == "FFI returned error: "@ + m@,
            self is Deserialize ==> "failed to deserialize response: "@.is_prefix_of(text@),
            self is Dial ==> text@ == "dial failed"@,
            self is Listen ==> text@ == "listen failed"@,
            self is ListenUdp ==> text@ == "UDP listen failed"@,
            self is Proxy ==> text@ == "proxy failed"@,
            self is SetLogLevel ==> text@ == "failed to set log level"@,
            self is InteriorNul ==> text@ == "string contains interior NUL byte"@,
    {
        match self {
            Error::Create(m) => {
                let mut t = "failed to create NetBird client: ".to_string();
                t.append(m.as_str());
                t
            },
            Error::Start => "failed to start NetBird client".to_string(),
            Error::Stop => "failed to stop NetBird client".to_string(),
            Error::BufferTooSmall => "buffer too small for response".to_string(),
            Error::Ffi(m) => {
                let mut t = "FFI returned error: ".to_string();
                t.append(m.as_str());
                t
            },
            Error::Deserialize(e) => {
                let mut t = "failed to deserialize response: ".to_string();
                let ghost prefix = t@;
                let detail = json_error_text(e);
                t.append(detail.as_str());
                assert(t@.subrange(0, prefix.len() as int) =~= prefix);
                t
            },
            Error::Dial => "dial failed".to_string(),
            Error::Listen => "listen failed".to_string(),
            Error::ListenUdp => "UDP listen failed".to_string(),
            Error::Proxy => "proxy failed".to_string(),
            Error::SetLogLevel => "failed to set log level".to_string(),
            Error::InteriorNul => "string contains interior NUL byte".to_string(),
        }
    }
}

/// The error of a failed call: the library's own message where it has one,
/// else `fallback`.
pub fn last_error_or(last: Option<String>, fallback: Error) -> (e: Error)
    ensures
        e == (match last {
            Some(m) => Error::Ffi(m),
            None => fallback,
        }),
{
    match last {
        Some(m) => Error::Ffi(m),
        None => fallback,
    }
}

/// The reason of a failed creation: the library's message, or
/// `"unknown error"` where it reported none.
pub fn create_error_msg(last: Option<String>) -> (msg: String)
    ensures
        msg@ == (match last {
            Some(m) => m@,
            None => "unknown error"@,
        }),
{
    match last {
        Some(m) => m,
        None => "unknown error".to_string(),
    }
}

impl vstd::std_specs::convert::FromSpecImpl<JsonError> for Error {
    open spec fn obeys_from_spec() -> bool {
        true
    }

    open spec fn from_spec(e: JsonError) -> Self {
        Error::Deserialize(e)
    }
}

impl From<JsonError> for Error {
    fn from(e: JsonError) -> (r: Self) {
        Error::Deserialize(e)
    }
}

} // verus!
