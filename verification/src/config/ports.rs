//! The ports of each run mode.

use crate::config::ServerMode;
use vstd::prelude::*;

verus! {

/// Frontend port of a development run.
pub const DEV_FRONTEND_PORT: u16 = 3001;

/// Stable backend port of a development run.
pub const DEV_BACKEND_PORT: u16 = 8001;

/// First port in which a development backend is looked for or started.
pub const DEV_BACKEND_RANGE_START: u16 = 8001;

/// Last port in which a development backend is looked for or started.
pub const DEV_BACKEND_RANGE_END: u16 = 8099;

/// Frontend port of a packaged run.
pub const BUILD_FRONTEND_PORT: u16 = 3100;

/// Stable backend port of a packaged run.
pub const BUILD_BACKEND_PORT: u16 = 8100;

/// First port in which a packaged backend is looked for or started.
pub const BUILD_BACKEND_RANGE_START: u16 = 8100;

/// Last port in which a packaged backend is looked for or started.
pub const BUILD_BACKEND_RANGE_END: u16 = 8199;

/// The frontend port of a mode.
pub open spec fn spec_frontend_port(mode: ServerMode) -> u16 {
    match mode {
        ServerMode::Dev => DEV_FRONTEND_PORT,
        ServerMode::Build => BUILD_FRONTEND_PORT,
    }
}

/// The stable backend port of a mode.
pub open spec fn spec_backend_port(mode: ServerMode) -> u16 {
    match mode {
        ServerMode::Dev => DEV_BACKEND_PORT,
        ServerMode::Build => BUILD_BACKEND_PORT,
    }
}

/// The frontend port of a mode.
#[verifier::when_used_as_spec(spec_frontend_port)]
pub fn frontend_port(mode: ServerMode) -> (port: u16)
    ensures
        port == spec_frontend_port(mode),
{
    match mode {
        ServerMode::Dev => DEV_FRONTEND_PORT,
        ServerMode::Build => BUILD_FRONTEND_PORT,
    }
}

/// The stable port on which the proxy of a mode listens.
#[verifier::when_used_as_spec(spec_backend_port)]
pub fn backend_port(mode: ServerMode) -> (port: u16)
    ensures
        port == spec_backend_port(mode),
{
    match mode {
        ServerMode::Dev => DEV_BACKEND_PORT,
        ServerMode::Build => BUILD_BACKEND_PORT,
    }
}

} // verus!
