pub mod backend;
pub mod backend_log;
pub mod backend_paths;
pub mod backend_proxy;
pub mod backend_python;
pub mod backend_support;
pub mod config;
pub mod nextjs;
pub mod shortcut;
pub mod text;
pub mod tray;

use vstd::prelude::*;

verus! {

/// How the main window is presented.
#[derive(Debug, Clone, Copy, PartialEq, Eq, Structural)]
pub enum WindowMode {
    /// An ordinary decorated window.
    Web,
    /// A transparent floating window.
    Island,
}

impl Default for WindowMode {
    fn default() -> (mode: WindowMode)
        ensures
            mode == WindowMode::Web,
    {
        WindowMode::Web
    }
}

} // verus!
