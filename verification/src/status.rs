//! Native status codes and the error value that carries one.

use vstd::prelude::*;

verus! {

/// The status code the OS returns when a call succeeded.
pub const NO_ERROR: u32 = 0;

/// The status code the OS returns when a queried element does not exist.
pub const ERROR_NOT_FOUND: u32 = 1168;

/// A native error code surfaced verbatim from an OS or driver call.
#[derive(Clone, Copy, Debug, PartialEq, Eq, Structural)]
pub struct OsError {
    pub code: u32,
}

} // verus!
