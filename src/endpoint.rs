//! Where the backend service listens, and how long its cleanup call may take.

use vstd::prelude::*;

verus! {

/// The loopback TCP port the backend serves on.
pub const SERVICE_PORT: u16 = 8000;

/// Connect timeout of the cleanup request when the host is closing.
pub const CLEANUP_TIMEOUT_EXIT_MS: u64 = 1500;

/// Connect timeout of the cleanup request before an update is installed: a
/// failed update costs more than a slower close.
pub const CLEANUP_TIMEOUT_UPDATE_MS: u64 = 3000;

pub fn cleanup_url() -> (r: &'static str)
    ensures
        r@ == "http://127.0.0.1:8000/api/cleanup"@,
{
    "http://127.0.0.1:8000/api/cleanup"
}

pub fn health_url() -> (r: &'static str)
    ensures
        r@ == "http://127.0.0.1:8000/api/health"@,
{
    "http://127.0.0.1:8000/api/health"
}

/// A request made once the backend is healthy, so that its first real use is fast.
pub fn warmup_url() -> (r: &'static str)
    ensures
        r@ == "http://127.0.0.1:8000/api/dossier-management/list?limit=50&offset=0"@,
{
    "http://127.0.0.1:8000/api/dossier-management/list?limit=50&offset=0"
}

} // verus!
