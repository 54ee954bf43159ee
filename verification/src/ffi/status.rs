//! Status codes returned by every fallible bridge call.
use vstd::prelude::*;

verus! {

/// The call succeeded.
pub const OK: i32 = 0;
/// An argument was rejected.
pub const INVALID_ARGUMENT: i32 = -1;
/// The operation is not supported on this system.
pub const UNSUPPORTED: i32 = -2;
/// The operation did not complete in time.
pub const TIMED_OUT: i32 = -3;
/// WebKit reported an error.
pub const FRAMEWORK_ERROR: i32 = -5;
/// Any other failure.
pub const UNKNOWN: i32 = -99;

} // verus!
