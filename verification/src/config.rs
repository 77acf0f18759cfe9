//! The fixed parameters of the supervision.

use vstd::prelude::*;

verus! {

/// Address that is probed to learn whether the backend is ready.
pub const BACKEND_URL: &'static str = "http://127.0.0.1:8000/";

/// Number of probes after which the backend is given up.
pub const MAX_RETRIES: u32 = 20;

/// Pause between a failed probe and the next one, in milliseconds.
pub const RETRY_DELAY_MS: u64 = 500;

/// Path of the backend executable below the resource directory.
pub open spec fn spec_backend_name(windows: bool) -> &'static str {
    if windows {
        "resources/backend.exe"
    } else {
        "resources/backend"
    }
}

/// Path of the backend executable below the resource directory, for a
/// Windows target (`windows`) or any other.
#[verifier::when_used_as_spec(spec_backend_name)]
pub fn backend_name(windows: bool) -> (name: &'static str)
    ensures
        name == spec_backend_name(windows),
{
    if windows {
        "resources/backend.exe"
    } else {
        "resources/backend"
    }
}

} // verus!
