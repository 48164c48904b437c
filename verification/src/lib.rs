//! Verified core of an embedded NetBird mesh-network client.
//!
//! The Go `client/embed` library is reached through a C interface that
//! works with integer handles, integer return codes and caller-provided
//! byte buffers. This crate holds everything that is decided on the Rust
//! side of that interface: how options become C arguments, how return
//! codes become results, how NUL-terminated buffers become text, how a
//! too-small JSON buffer is grown, and the data model of the status
//! report. The foreign calls themselves are made by the surrounding
//! application layer.

pub mod buffer;
pub mod calls;
pub mod error;
pub mod laws;
pub mod options;
pub mod query;
pub mod status;

pub use buffer::{cstr_from_buf, error_buffer, read_error_buf, ERROR_BUF_SIZE, INITIAL_BUF_SIZE, MAX_BUF_SIZE};
pub use calls::{accepted_fd, check_fd, check_rc, created_handle, creation_error, proxy_port};
pub use error::{create_error_msg, last_error_or, Error};
pub use options::{c_string, make_cstring, CText, ClientOptions, CreateArgs};
pub use query::{JsonQuery, JsonStep};
pub use status::{ConnectionState, Peer, Status};
