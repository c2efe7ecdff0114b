//! Timeouts, in milliseconds.

use vstd::prelude::*;

verus! {

/// How long a started backend may take to become healthy.
pub const BACKEND_READY: u64 = 180_000;

/// How long the frontend may take to become ready.
pub const FRONTEND_READY: u64 = 30_000;

/// The bound on one health probe.
pub const HEALTH_CHECK: u64 = 5_000;

/// The pause between two probes while waiting for a backend.
pub const HEALTH_CHECK_RETRY: u64 = 500;

} // verus!
