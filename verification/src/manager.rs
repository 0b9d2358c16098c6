//! The manager's startup decision: the simulator must speak the expected
//! API version, or the run aborts before anything moves.

use vstd::prelude::*;

verus! {

/// The simulator API version this crate is written against.
pub const API_VERSION: u32 = 2;

/// Whether the version the simulator reports allows the run to start;
/// on a mismatch the startup fails with an error.
pub fn api_version_ok(version: u32) -> (r: bool)
    ensures
        r <==> version == API_VERSION,
{
    version == API_VERSION
}

} // verus!
