# netbird-embed

Rust bindings for NetBird's `client/embed` Go package, which is reached
through a C-shared library that works with integer handles, integer return
codes and caller-provided byte buffers.

- `src/` is the verified library (Verus). It holds every decision made on
  the Rust side of the C interface:
  - `options`: client options, and how they become C arguments (C strings,
    the default WireGuard port, flags as 0/1); a NUL byte in a text is refused.
  - `buffer`: reading NUL-terminated text and error messages out of buffers.
  - `query`: the JSON query whose buffer starts at 4 KiB and doubles on each
    "too small" answer, up to 1 MiB.
  - `calls`: how return codes, descriptors, handles and ports become results.
  - `error`: the error type, its messages, and how the library's last error
    message takes precedence over a fallback error.
  - `status`: connection states, peers and the status report.
  - `laws`: properties that span several functions.
- `app/` performs the foreign calls, the socket I/O and the JSON decoding,
  and calls into `src/` for every decision.
- `tests/` runs the library on concrete values.
