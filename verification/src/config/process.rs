//! Names of the backend executable and of its data directory.

use vstd::prelude::*;

verus! {

/// File name of the packaged backend on Windows.
pub const BACKEND_EXEC_NAME_WINDOWS: &'static str = "lifetrace.exe";

/// File name of the packaged backend elsewhere.
pub const BACKEND_EXEC_NAME_UNIX: &'static str = "lifetrace";

/// Name of the directory that holds the backend's data.
pub const BACKEND_DATA_DIR: &'static str = "lifetrace-data";

/// The file name of the packaged backend on the given platform.
pub fn backend_exec_name(windows: bool) -> (name: &'static str)
    ensures
        name@ == (if windows {
            BACKEND_EXEC_NAME_WINDOWS@
        } else {
            BACKEND_EXEC_NAME_UNIX@
        }),
{
    if windows {
        BACKEND_EXEC_NAME_WINDOWS
    } else {
        BACKEND_EXEC_NAME_UNIX
    }
}

} // verus!
