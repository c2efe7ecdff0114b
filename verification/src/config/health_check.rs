//! Polling intervals, in milliseconds.

use vstd::prelude::*;

verus! {

/// Pause between two health checks of the frontend.
pub const FRONTEND_INTERVAL: u64 = 10_000;

/// Pause between two reconciliation passes of the backend supervisor.
pub const BACKEND_INTERVAL: u64 = 30_000;

} // verus!
