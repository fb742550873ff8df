//! Client-side session layer for a remote tabular time-series database
//! spoken to over a synchronous request/response RPC channel, with verified
//! contracts on every function.
//!
//! The library itself performs no I/O: `session` holds the lifecycle state
//! machine, builds each operation's request value and judges each reply by
//! the status-code contract; `dataset` decodes the server's packed columnar
//! result payload (per-column null bitmaps, big-endian variable-width
//! fields) into rows of the value model; `common` carries the wire enums and
//! their exact integer round-trips; `rpc` holds the plain message values that
//! cross the boundary. A thin unverified adapter owns the socket and the wire
//! codec, feeding replies back as plain values.

pub mod bytes;
pub mod common;
pub mod dataset;
pub mod errors;
pub mod rpc;
pub mod session;

use vstd::prelude::*;

verus! {

/// Status code a server reply must carry for an operation to count as
/// successful; every other code is a domain failure.
pub const SUCCESS_CODE: i32 = 200;

} // verus!
